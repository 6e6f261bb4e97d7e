//! Request URLs for the upstream job API: job endpoints built from nested job
//! names, and build references reconciled with the configured base URL.
use crate::error::MonitorError;
use crate::text::{
    chars_of, escape_spaces, push_char, push_str, split_on, string_of,
    trim_end_char, trim_end_char_chars, with_trailing_slash,
};
use vstd::prelude::*;

verus! {

#[verifier::external_type_specification]
#[verifier::external_body]
pub struct ExUrl(url::Url);

#[verifier::external_type_specification]
#[verifier::external_body]
pub struct ExUrlParseError(url::ParseError);

/// The text of `s` with every byte but ASCII alphanumerics and `-_.~`
/// percent-encoded.
pub uninterp spec fn percent_encoded(s: Seq<char>) -> Seq<char>;

/// The serialization of the URL that `s` parses to, if it parses.
pub uninterp spec fn url_parse(s: Seq<char>) -> Option<Seq<char>>;

/// The scheme of the URL serialized as `u`.
pub uninterp spec fn url_scheme(u: Seq<char>) -> Seq<char>;

/// The host of the URL serialized as `u`, if it has one.
pub uninterp spec fn url_host(u: Seq<char>) -> Option<Seq<char>>;

/// The path of the URL serialized as `u`.
pub uninterp spec fn url_path(u: Seq<char>) -> Seq<char>;

/// The serialization of `input` resolved against the URL serialized as `u`,
/// if that succeeds.
pub uninterp spec fn url_join(u: Seq<char>, input: Seq<char>) -> Option<Seq<char>>;

/// Relies on `urlencoding::encode`: the encoding depends on the text alone.
#[verifier::external_body]
fn encode_segment(s: &str) -> (r: String)
    ensures
        r@ == percent_encoded(s@),
{
    urlencoding::encode(s).into_owned()
}

/// A parsed URL together with its serialization.
pub struct ParsedUrl {
    text: String,
    url: url::Url,
}

impl ParsedUrl {
    /// The serialization of this URL.
    pub closed spec fn spec_text(&self) -> Seq<char> {
        self.text@
    }

    pub fn as_str(&self) -> (r: &str)
        ensures
            r@ == self.spec_text(),
    {
        self.text.as_str()
    }
}

/// Relies on `url::Url::parse`, serialized with `Url::as_str`: the outcome
/// depends on the input text alone.
#[verifier::external_body]
fn parse_url(s: &str) -> (r: Result<ParsedUrl, url::ParseError>)
    ensures
        r is Ok <==> url_parse(s@) is Some,
        r matches Ok(u) ==> url_parse(s@) == Some(u.spec_text()),
{
    match url::Url::parse(s) {
        Ok(url) => {
            let text = url.as_str().to_owned();
            Ok(ParsedUrl { text, url })
        },
        Err(e) => Err(e),
    }
}

/// Relies on `url::Url::scheme`.
#[verifier::external_body]
fn scheme_of(u: &ParsedUrl) -> (r: String)
    ensures
        r@ == url_scheme(u.spec_text()),
{
    u.url.scheme().to_owned()
}

/// Relies on `url::Url::host_str`.
#[verifier::external_body]
fn host_of(u: &ParsedUrl) -> (r: Option<String>)
    ensures
        r matches Some(h) ==> url_host(u.spec_text()) == Some(h@),
        r is None ==> url_host(u.spec_text()) is None,
{
    match u.url.host_str() {
        Some(h) => Some(h.to_owned()),
        None => None,
    }
}

/// Relies on `url::Url::path`.
#[verifier::external_body]
fn path_of(u: &ParsedUrl) -> (r: String)
    ensures
        r@ == url_path(u.spec_text()),
{
    u.url.path().to_owned()
}

/// Relies on `url::Url::join`, serialized with `Url::as_str`.
#[verifier::external_body]
fn join_url(u: &ParsedUrl, input: &str) -> (r: Result<ParsedUrl, url::ParseError>)
    ensures
        r is Ok <==> url_join(u.spec_text(), input@) is Some,
        r matches Ok(j) ==> url_join(u.spec_text(), input@) == Some(j.spec_text()),
{
    match u.url.join(input) {
        Ok(url) => {
            let text = url.as_str().to_owned();
            Ok(ParsedUrl { text, url })
        },
        Err(e) => Err(e),
    }
}

/// The path below the base URL for a job whose name has the (already
/// encoded) segments `segments`: `/job/<segment>` for each.
pub open spec fn job_path(segments: Seq<Seq<char>>) -> Seq<char>
    decreases segments.len(),
{
    if segments.len() == 0 {
        Seq::empty()
    } else {
        job_path(segments.drop_last()) + "/job/"@ + segments.last()
    }
}

pub open spec fn texts(v: Seq<String>) -> Seq<Seq<char>> {
    v.map_values(|s: String| s@)
}

/// The endpoint `suffix` of job `name` below `base`: each `/`-separated
/// segment of the name percent-encoded on its own.
pub open spec fn job_url(base: Seq<char>, name: Seq<char>, suffix: Seq<char>) -> Seq<char> {
    trim_end_char(base, '/') + job_path(split_on(name, '/').map_values(|p| percent_encoded(p)))
        + suffix
}

/// The pieces of `s` between occurrences of `sep`.
pub fn split_text(s: &str, sep: char) -> (r: Vec<String>)
    ensures
        texts(r@) == split_on(s@, sep),
{
    let v = chars_of(s);
    let mut parts: Vec<String> = Vec::new();
    let mut cur: Vec<char> = Vec::new();
    assert(v@.take(0) == Seq::<char>::empty());
    assert(texts(parts@).push(cur@) == split_on(Seq::<char>::empty(), sep));
    for i in 0..v.len()
        invariant
            v@ == s@,
            texts(parts@).push(cur@) == split_on(v@.take(i as int), sep),
    {
        let c = v[i];
        assert(v@.take(i + 1).drop_last() == v@.take(i as int));
        assert(v@.take(i + 1).last() == c);
        if c == sep {
            let piece = string_of(&cur);
            parts.push(piece);
            cur = Vec::new();
            assert(texts(parts@) == texts(parts@.drop_last()).push(piece@));
        } else {
            cur.push(c);
        }
        assert(texts(parts@).push(cur@) == split_on(v@.take(i + 1), sep));
    }
    assert(v@.take(v.len() as int) == v@);
    let piece = string_of(&cur);
    parts.push(piece);
    assert(texts(parts@) == texts(parts@.drop_last()).push(piece@));
    parts
}

/// `base` without trailing `/`, then `/job/<segment>` for each of
/// `encoded_segments`, then `suffix`.
pub fn join_job_url(base: &str, encoded_segments: &Vec<String>, suffix: &str) -> (r: String)
    ensures
        r@ == trim_end_char(base@, '/') + job_path(texts(encoded_segments@)) + suffix@,
{
    let mut out = string_of(&trim_end_char_chars(&chars_of(base), '/'));
    let ghost head = out@;
    for i in 0..encoded_segments.len()
        invariant
            head == trim_end_char(base@, '/'),
            out@ == head + job_path(texts(encoded_segments@.take(i as int))),
    {
        assert(texts(encoded_segments@.take(i + 1)).drop_last() == texts(
            encoded_segments@.take(i as int),
        ));
        push_str(&mut out, "/job/");
        push_str(&mut out, encoded_segments[i].as_str());
    }
    assert(encoded_segments@.take(encoded_segments.len() as int) == encoded_segments@);
    push_str(&mut out, suffix);
    out
}

/// The endpoint `suffix` of job `job_name` below `base_url`.
fn build_job_url(base_url: &str, job_name: &str, suffix: &str) -> (r: String)
    ensures
        r@ == job_url(base_url@, job_name@, suffix@),
{
    let parts = split_text(job_name, '/');
    let mut encoded: Vec<String> = Vec::new();
    for i in 0..parts.len()
        invariant
            encoded@.len() == i,
            forall|k: int| 0 <= k < i ==> encoded@[k]@ == percent_encoded(parts@[k]@),
    {
        encoded.push(encode_segment(parts[i].as_str()));
    }
    assert(texts(encoded@) == split_on(job_name@, '/').map_values(|p| percent_encoded(p)));
    join_job_url(base_url, &encoded, suffix)
}

/// The JSON endpoint of the server itself, used to test the connection.
pub fn build_server_api_url(base_url: &str) -> (r: String)
    ensures
        r@ == trim_end_char(base_url@, '/') + "/api/json"@,
{
    let mut out = string_of(&trim_end_char_chars(&chars_of(base_url), '/'));
    push_str(&mut out, "/api/json");
    out
}

/// The JSON endpoint of a job; nested jobs become repeated `/job/<name>`
/// segments, each percent-encoded.
pub fn build_job_api_url(base_url: &str, job_name: &str) -> (r: String)
    ensures
        r@ == job_url(base_url@, job_name@, "/api/json"@),
{
    build_job_url(base_url, job_name, "/api/json")
}

/// The `config.xml` endpoint of a job, laid out as [`build_job_api_url`].
pub fn build_job_config_url(base_url: &str, job_name: &str) -> (r: String)
    ensures
        r@ == job_url(base_url@, job_name@, "/config.xml"@),
{
    build_job_url(base_url, job_name, "/config.xml")
}

} // verus!

verus! {

pub open spec fn opt_texts(o: Option<&str>) -> Option<Seq<char>> {
    match o {
        Some(s) => Some(s@),
        None => None,
    }
}

/// Whether two URLs, given by scheme and host, have the same origin for the
/// purpose of reusing a build reference as it is.
pub fn same_origin(scheme_a: &str, host_a: Option<&str>, scheme_b: &str, host_b: Option<&str>) -> (r:
    bool)
    ensures
        r == (scheme_a@ == scheme_b@ && opt_texts(host_a) == opt_texts(host_b)),
{
    if !crate::text::same_text(scheme_a, scheme_b) {
        return false;
    }
    match (host_a, host_b) {
        (None, None) => true,
        (Some(a), Some(b)) => crate::text::same_text(a, b),
        _ => false,
    }
}

pub open spec fn malformed_unless(o: Option<Seq<char>>) -> Result<Seq<char>, MonitorError> {
    match o {
        Some(u) => Ok(u),
        None => Err(MonitorError::MalformedUpstreamReference),
    }
}

/// The JSON endpoint for a build reference `raw` returned by the upstream
/// API, given the configured base URL `base`. The reference gets a trailing
/// `/`; when it does not parse, its spaces are escaped and it is parsed once
/// more. A reference with the base's scheme and host is used as it is;
/// otherwise its path is resolved against the base. Then `api/json` is
/// resolved against the result.
pub open spec fn reconciled_build_url(raw: Seq<char>, base: Seq<char>) -> Result<
    Seq<char>,
    MonitorError,
> {
    let slashed = with_trailing_slash(raw);
    let parsed = match url_parse(slashed) {
        Some(u) => Some(u),
        None => url_parse(escape_spaces(slashed)),
    };
    match parsed {
        None => Err(MonitorError::MalformedUpstreamReference),
        Some(u) => {
            let cfg = url_parse(base);
            if cfg matches Some(c) && url_scheme(u) == url_scheme(c) && url_host(u) == url_host(c) {
                malformed_unless(url_join(u, "api/json"@))
            } else {
                match cfg {
                    None => Err(MonitorError::InvalidBaseUrl),
                    Some(c) => match url_join(c, with_trailing_slash(url_path(u))) {
                        None => Err(MonitorError::MalformedUpstreamReference),
                        Some(j) => malformed_unless(url_join(j, "api/json"@)),
                    },
                }
            }
        },
    }
}

fn with_trailing_slash_text(s: &str) -> (r: String)
    ensures
        r@ == with_trailing_slash(s@),
{
    let v = chars_of(s);
    let mut out = string_of(&v);
    if v.len() == 0 || v[v.len() - 1] != '/' {
        push_char(&mut out, '/');
    }
    out
}

fn escape_spaces_text(s: &str) -> (r: String)
    ensures
        r@ == escape_spaces(s@),
{
    let v = chars_of(s);
    let mut out = String::new();
    for i in 0..v.len()
        invariant
            v@ == s@,
            out@ == escape_spaces(v@.take(i as int)),
    {
        assert(v@.take(i + 1).drop_last() == v@.take(i as int));
        if v[i] == ' ' {
            push_char(&mut out, '%');
            push_char(&mut out, '2');
            push_char(&mut out, '0');
        } else {
            push_char(&mut out, v[i]);
        }
    }
    assert(v@.take(v.len() as int) == v@);
    out
}

fn join_api_json(u: &ParsedUrl) -> (r: Result<String, MonitorError>)
    ensures
        r matches Ok(s) ==> malformed_unless(url_join(u.spec_text(), "api/json"@)) == Ok::<
            Seq<char>,
            MonitorError,
        >(s@),
        r matches Err(e) ==> malformed_unless(url_join(u.spec_text(), "api/json"@)) == Err::<
            Seq<char>,
            MonitorError,
        >(e),
{
    match join_url(u, "api/json") {
        Ok(j) => Ok(j.as_str().to_owned()),
        Err(_) => Err(MonitorError::MalformedUpstreamReference),
    }
}

/// The JSON endpoint for the build reference `raw` that the upstream API
/// returned, reconciled with the configured base URL (see
/// [`reconciled_build_url`]).
pub fn build_api_url_from_last_build(raw: &str, configured_base: &str) -> (r: Result<
    String,
    MonitorError,
>)
    ensures
        r matches Ok(s) ==> reconciled_build_url(raw@, configured_base@) == Ok::<
            Seq<char>,
            MonitorError,
        >(s@),
        r matches Err(e) ==> reconciled_build_url(raw@, configured_base@) == Err::<
            Seq<char>,
            MonitorError,
        >(e),
{
    let slashed = with_trailing_slash_text(raw);
    let u = match parse_url(slashed.as_str()) {
        Ok(u) => u,
        Err(_) => {
            let escaped = escape_spaces_text(slashed.as_str());
            match parse_url(escaped.as_str()) {
                Ok(u) => u,
                Err(_) => {
                    return Err(MonitorError::MalformedUpstreamReference);
                },
            }
        },
    };
    let cfg = parse_url(configured_base);
    if let Ok(c) = &cfg {
        let us = scheme_of(&u);
        let uh = host_of(&u);
        let cs = scheme_of(c);
        let ch = host_of(c);
        let uh_ref: Option<&str> = match &uh {
            Some(h) => Some(h.as_str()),
            None => None,
        };
        let ch_ref: Option<&str> = match &ch {
            Some(h) => Some(h.as_str()),
            None => None,
        };
        if same_origin(us.as_str(), uh_ref, cs.as_str(), ch_ref) {
            return join_api_json(&u);
        }
    }
    let c = match cfg {
        Ok(c) => c,
        Err(_) => {
            return Err(MonitorError::InvalidBaseUrl);
        },
    };
    let path = with_trailing_slash_text(path_of(&u).as_str());
    match join_url(&c, path.as_str()) {
        Ok(j) => join_api_json(&j),
        Err(_) => Err(MonitorError::MalformedUpstreamReference),
    }
}

} // verus!
