//! Where the server listens and where a subscriber connects: the forms of
//! address that the command line takes, and the defaults.

use vstd::prelude::*;
use crate::json::{decimal, decimal_text};
use crate::text::{after, contains_double_slash, find_char, has_double_slash, has_prefix, is_first,
    opt_view, starts_with, strip_prefix};

verus! {

#[verifier::external_type_specification]
#[verifier::external_body]
pub struct ExParseError(url::ParseError);

/// The URL that the URL parser reads from a text, written out again; none
/// where the parser refuses the text.
pub uninterp spec fn url_normal(text: Seq<char>) -> Option<Seq<char>>;

/// The path of the URL that the URL parser reads from a text; none where the
/// parser refuses the text.
pub uninterp spec fn url_path(text: Seq<char>) -> Option<Seq<char>>;

/// The URL that the URL parser reads from a text, with its path set to
/// `path` and written out again; none where the parser refuses the text.
pub uninterp spec fn url_with_path(text: Seq<char>, path: Seq<char>) -> Option<Seq<char>>;

/// The longest text, in characters, of which `set_url_path` is asked.
pub const MAX_URL_CHARS: usize = 0x0400_0000;

/// `Url::parse` of the url crate, with the URL turned into the `String` that
/// it holds. What comes out depends on the text alone; the contract gives it
/// the name `url_normal` and says nothing else of it.
#[verifier::external_body]
fn parse_url(text: &str) -> (r: Result<String, url::ParseError>)
    ensures
        match r {
            Ok(url) => url_normal(text@) == Some(url@),
            Err(_) => url_normal(text@) is None,
        },
{
    match url::Url::parse(text) {
        Ok(url) => Ok(String::from(url)),
        Err(e) => Err(e),
    }
}

/// `Url::path` of the url crate, of the URL that `Url::parse` reads from the
/// text. What comes out depends on the text alone; the contract gives it the
/// name `url_path`, and says that there is a path exactly where the text
/// parses.
#[verifier::external_body]
fn path_of_url(text: &str) -> (r: Option<String>)
    ensures
        opt_view(r) == url_path(text@),
        r is Some <==> url_normal(text@) is Some,
{
    match url::Url::parse(text) {
        Ok(url) => Some(url.path().to_owned()),
        Err(_) => None,
    }
}

/// `Url::set_path` of the url crate, on the URL that `Url::parse` reads from
/// the text, with the URL turned into a `String` afterwards. What comes out
/// depends on the two texts alone; the contract gives it the name
/// `url_with_path`, and says that there is a URL exactly where the text
/// parses. `set_path` gives up on a URL that grows beyond four gigabytes; a
/// text within the bounds here is parsed into a URL of less than one.
#[verifier::external_body]
fn set_url_path(text: &str, path: &str) -> (r: Option<String>)
    requires
        text@.len() <= MAX_URL_CHARS,
        path@.len() <= 256,
    ensures
        opt_view(r) == url_with_path(text@, path@),
        r is Some <==> url_normal(text@) is Some,
{
    match url::Url::parse(text) {
        Ok(mut url) => {
            url.set_path(path);
            Some(String::from(url))
        },
        Err(_) => None,
    }
}

/// A path for GraphQL requests: `/graphql` where none is given, and with a
/// slash in front where it has none.
pub open spec fn normal_path(p: Seq<char>) -> Seq<char> {
    if p.len() == 0 {
        "/graphql"@
    } else if p[0] == '/' {
        p
    } else {
        "/"@ + p
    }
}

/// The path for GraphQL requests that a given path stands for.
pub fn normalize_graphql_path(input: &str) -> (r: String)
    ensures
        r@ == normal_path(input@),
{
    if input.is_empty() {
        String::from_str("/graphql")
    } else if input.get_char(0) == '/' {
        String::from_str(input)
    } else {
        let mut r = String::from_str("/");
        r.append(input);
        r
    }
}

/// A file name put behind a directory: with a slash between the two unless
/// the directory is empty or ends in one.
pub open spec fn joined(dir: Seq<char>, file: Seq<char>) -> Seq<char> {
    if dir.len() == 0 {
        file
    } else if dir.last() == '/' {
        dir + file
    } else {
        dir + "/"@ + file
    }
}

fn join_path(dir: &str, file: &str) -> (r: String)
    ensures
        r@ == joined(dir@, file@),
{
    let n = dir.unicode_len();
    let mut r = String::from_str(dir);
    if n > 0 && dir.get_char(n - 1) != '/' {
        r.append("/");
    }
    r.append(file);
    assert(r@ =~= joined(dir@, file@));
    r
}

/// The socket that the server listens on by default: `riverql.sock` in the
/// runtime directory, or in `/run/user/` and the user's number where no
/// runtime directory is set.
pub open spec fn default_socket(runtime_dir: Option<Seq<char>>, uid: u32) -> Seq<char> {
    match runtime_dir {
        Some(dir) => joined(dir, "riverql.sock"@),
        None => "/run/user/"@ + decimal(uid as nat) + "/riverql.sock"@,
    }
}

fn default_socket_path(runtime_dir: &Option<String>, uid: u32) -> (r: String)
    ensures
        r@ == default_socket(opt_view(*runtime_dir), uid),
        r@.len() > 0,
{
    proof {
        reveal_strlit("riverql.sock");
        reveal_strlit("/run/user/");
    }
    match runtime_dir {
        Some(dir) => join_path(dir.as_str(), "riverql.sock"),
        None => {
            let mut r = String::from_str("/run/user/");
            r.append(decimal_text(uid).as_str());
            r.append("/riverql.sock");
            r
        },
    }
}

/// The address that the server listens on by default, given the runtime
/// directory of the environment, if one is set, and the user's number.
pub fn default_listen_addr(runtime_dir: &Option<String>, uid: u32) -> (r: String)
    ensures
        r@ == "unix://"@ + default_socket(opt_view(*runtime_dir), uid),
{
    let mut r = String::from_str("unix://");
    r.append(default_socket_path(runtime_dir, uid).as_str());
    r
}

/// Where the server listens.
#[derive(Clone, Debug)]
pub enum ListenTarget {
    /// A socket address, as text that was found to be one.
    Tcp(String),
    /// The path of a local socket.
    Unix(String),
}

pub enum ListenTargetView {
    Tcp(Seq<char>),
    Unix(Seq<char>),
}

impl View for ListenTarget {
    type V = ListenTargetView;

    open spec fn view(&self) -> ListenTargetView {
        match *self {
            ListenTarget::Tcp(a) => ListenTargetView::Tcp(a@),
            ListenTarget::Unix(p) => ListenTargetView::Unix(p@),
        }
    }
}

/// Why a listen address was refused.
#[derive(Clone, Copy, Debug, PartialEq, Eq, Structural)]
pub enum ListenError {
    /// `unix://` with nothing behind it.
    EmptyUnixPath,
    /// `tcp://` with something behind it that is no socket address.
    BadTcpAddress,
    /// The empty address.
    Invalid,
}

/// The part of a listen address that may be a socket address: what follows
/// `tcp://`, or the whole where the address has no scheme. An address with
/// `unix://` has none.
pub open spec fn socket_addr_part(value: Seq<char>) -> Option<Seq<char>> {
    if has_prefix(value, "unix://"@) {
        None
    } else if has_prefix(value, "tcp://"@) {
        Some(after(value, "tcp://"@.len()))
    } else {
        Some(value)
    }
}

/// What a listen address means, given whether its `socket_addr_part` is a
/// socket address.
pub open spec fn listen_target(value: Seq<char>, is_socket_addr: bool) -> Result<
    ListenTargetView,
    ListenError,
> {
    if has_prefix(value, "unix://"@) {
        if after(value, "unix://"@.len()).len() == 0 {
            Err(ListenError::EmptyUnixPath)
        } else {
            Ok(ListenTargetView::Unix(after(value, "unix://"@.len())))
        }
    } else if has_prefix(value, "tcp://"@) {
        if is_socket_addr {
            Ok(ListenTargetView::Tcp(after(value, "tcp://"@.len())))
        } else {
            Err(ListenError::BadTcpAddress)
        }
    } else if is_socket_addr {
        Ok(ListenTargetView::Tcp(value))
    } else if value.len() > 0 {
        Ok(ListenTargetView::Unix(value))
    } else {
        Err(ListenError::Invalid)
    }
}

pub open spec fn listen_result_view(r: Result<ListenTarget, ListenError>) -> Result<
    ListenTargetView,
    ListenError,
> {
    match r {
        Ok(t) => Ok(t@),
        Err(e) => Err(e),
    }
}

/// The part of a listen address to try as a socket address, if it has one.
pub fn socket_addr_text(value: &str) -> (r: Option<String>)
    ensures
        opt_view(r) == socket_addr_part(value@),
{
    if starts_with(value, "unix://") {
        return None;
    }
    match strip_prefix(value, "tcp://") {
        Some(rest) => Some(String::from_str(rest)),
        None => Some(String::from_str(value)),
    }
}

/// Reads a listen address. `is_socket_addr` says whether the text that
/// `socket_addr_text` gives for the address is a socket address.
pub fn parse_listen_addr(value: &str, is_socket_addr: bool) -> (r: Result<
    ListenTarget,
    ListenError,
>)
    ensures
        listen_result_view(r) == listen_target(value@, is_socket_addr),
{
    match strip_prefix(value, "unix://") {
        Some(rest) => {
            if rest.is_empty() {
                return Err(ListenError::EmptyUnixPath);
            }
            return Ok(ListenTarget::Unix(String::from_str(rest)));
        },
        None => {},
    }
    match strip_prefix(value, "tcp://") {
        Some(rest) => {
            if is_socket_addr {
                return Ok(ListenTarget::Tcp(String::from_str(rest)));
            }
            return Err(ListenError::BadTcpAddress);
        },
        None => {},
    }
    if is_socket_addr {
        return Ok(ListenTarget::Tcp(String::from_str(value)));
    }
    if !value.is_empty() {
        return Ok(ListenTarget::Unix(String::from_str(value)));
    }
    Err(ListenError::Invalid)
}

/// The endpoint that a subscriber connects to by default: the default socket
/// of the server, with the path `/graphql`.
pub fn default_endpoint(runtime_dir: &Option<String>, uid: u32) -> (r: String)
    ensures
        r@ == "unix://"@ + default_socket(opt_view(*runtime_dir), uid) + "#/graphql"@,
{
    let socket = default_socket_path(runtime_dir, uid);
    let mut addr = String::from_str("unix://");
    addr.append(socket.as_str());
    proof {
        let scheme = "unix://"@;
        assert((scheme + socket@).subrange(0, scheme.len() as int) =~= scheme);
        assert(after(scheme + socket@, scheme.len()) =~= socket@);
    }
    match parse_listen_addr(addr.as_str(), false) {
        Ok(ListenTarget::Tcp(a)) => {
            let mut r = String::from_str("ws://");
            r.append(a.as_str());
            r.append("/graphql");
            r
        },
        Ok(ListenTarget::Unix(path)) => {
            let mut r = String::from_str("unix://");
            r.append(path.as_str());
            r.append("#/graphql");
            r
        },
        Err(_) => String::from_str("ws://127.0.0.1:8080/graphql"),
    }
}

/// Where a subscriber connects.
#[derive(Clone, Debug)]
pub enum EndpointTarget {
    /// A WebSocket URL, as the text that the URL parser wrote.
    Tcp(String),
    /// A local socket, and the path to ask for on it.
    Unix { socket: String, path: String },
}

pub enum EndpointTargetView {
    Tcp(Seq<char>),
    Unix { socket: Seq<char>, path: Seq<char> },
}

impl View for EndpointTarget {
    type V = EndpointTargetView;

    open spec fn view(&self) -> EndpointTargetView {
        match *self {
            EndpointTarget::Tcp(url) => EndpointTargetView::Tcp(url@),
            EndpointTarget::Unix { socket, path } => EndpointTargetView::Unix {
                socket: socket@,
                path: path@,
            },
        }
    }
}

pub open spec fn target_result_view(r: Result<EndpointTarget, EndpointError>) -> Result<
    EndpointTargetView,
    EndpointError,
> {
    match r {
        Ok(t) => Ok(t@),
        Err(e) => Err(e),
    }
}

/// Why an endpoint was refused.
#[derive(Clone, Copy, Debug, PartialEq, Eq, Structural)]
pub enum EndpointError {
    /// `unix://` with no socket path behind it.
    MissingSocketPath,
    /// A scheme other than `ws`, `wss`, `tcp`, `http`, `https` and `unix`.
    UnsupportedScheme,
    /// The text is no URL.
    InvalidUrl,
    /// The URL needs the default path and has more than `MAX_URL_CHARS`
    /// characters.
    TooLong,
}

/// An endpoint before its URL, if it has one, is parsed.
#[derive(Clone, Debug)]
pub enum EndpointForm {
    Unix { socket: String, path: String },
    Url(String),
}

pub enum EndpointFormView {
    Unix { socket: Seq<char>, path: Seq<char> },
    Url(Seq<char>),
}

impl View for EndpointForm {
    type V = EndpointFormView;

    open spec fn view(&self) -> EndpointFormView {
        match *self {
            EndpointForm::Unix { socket, path } => EndpointFormView::Unix {
                socket: socket@,
                path: path@,
            },
            EndpointForm::Url(text) => EndpointFormView::Url(text@),
        }
    }
}

pub open spec fn form_result_view(r: Result<EndpointForm, EndpointError>) -> Result<
    EndpointFormView,
    EndpointError,
> {
    match r {
        Ok(f) => Ok(f@),
        Err(e) => Err(e),
    }
}

/// What stands behind `unix://`: the socket path up to the first `#`, and
/// behind it the path to ask for.
pub open spec fn unix_form(rest: Seq<char>) -> Result<EndpointFormView, EndpointError> {
    let socket = if rest.contains('#') {
        rest.subrange(0, choose|i: int| is_first(rest, '#', i))
    } else {
        rest
    };
    let path = if rest.contains('#') {
        normal_path(rest.subrange((choose|i: int| is_first(rest, '#', i)) + 1, rest.len() as int))
    } else {
        normal_path("/graphql"@)
    };
    if socket.len() == 0 {
        Err(EndpointError::MissingSocketPath)
    } else {
        Ok(EndpointFormView::Unix { socket, path })
    }
}

/// The form of an endpoint: a local socket behind `unix://`; else a URL, which
/// is the text itself behind `ws://` or `wss://`, with `ws://` in place of
/// `tcp://` and `http://`, with `wss://` in place of `https://`, and with
/// `ws://` in front of a text without scheme.
pub open spec fn endpoint_form(value: Seq<char>) -> Result<EndpointFormView, EndpointError> {
    if has_prefix(value, "unix://"@) {
        unix_form(after(value, "unix://"@.len()))
    } else if has_prefix(value, "ws://"@) || has_prefix(value, "wss://"@) {
        Ok(EndpointFormView::Url(value))
    } else if has_prefix(value, "tcp://"@) {
        Ok(EndpointFormView::Url("ws://"@ + after(value, "tcp://"@.len())))
    } else if has_prefix(value, "http://"@) {
        Ok(EndpointFormView::Url("ws://"@ + after(value, "http://"@.len())))
    } else if has_prefix(value, "https://"@) {
        Ok(EndpointFormView::Url("wss://"@ + after(value, "https://"@.len())))
    } else if has_double_slash(value) {
        Err(EndpointError::UnsupportedScheme)
    } else {
        Ok(EndpointFormView::Url("ws://"@ + value))
    }
}

proof fn lemma_first_is_unique(s: Seq<char>, c: char, i: int)
    requires
        is_first(s, c, i),
    ensures
        s.contains(c),
        (choose|j: int| is_first(s, c, j)) == i,
{
    let j = choose|j: int| is_first(s, c, j);
    assert(is_first(s, c, j));
    if j < i {
        assert(s[j] != c);
    }
    if i < j {
        assert(s[i] != c);
    }
}

fn with_scheme(scheme: &str, rest: &str) -> (r: EndpointForm)
    ensures
        r@ == EndpointFormView::Url(scheme@ + rest@),
{
    let mut text = String::from_str(scheme);
    text.append(rest);
    EndpointForm::Url(text)
}

/// The form of an endpoint.
pub fn read_endpoint_form(value: &str) -> (r: Result<EndpointForm, EndpointError>)
    ensures
        form_result_view(r) == endpoint_form(value@),
{
    match strip_prefix(value, "unix://") {
        Some(rest) => {
            let n = rest.unicode_len();
            let (socket, path) = match find_char(rest, '#') {
                Some(i) => {
                    proof {
                        lemma_first_is_unique(rest@, '#', i as int);
                    }
                    (
                        rest.substring_char(0, i),
                        normalize_graphql_path(rest.substring_char(i + 1, n)),
                    )
                },
                None => {
                    assert(rest@.subrange(0, n as int) =~= rest@);
                    (rest.substring_char(0, n), normalize_graphql_path("/graphql"))
                },
            };
            if socket.is_empty() {
                return Err(EndpointError::MissingSocketPath);
            }
            return Ok(EndpointForm::Unix { socket: String::from_str(socket), path });
        },
        None => {},
    }
    if starts_with(value, "ws://") || starts_with(value, "wss://") {
        return Ok(EndpointForm::Url(String::from_str(value)));
    }
    match strip_prefix(value, "tcp://") {
        Some(rest) => {
            return Ok(with_scheme("ws://", rest));
        },
        None => {},
    }
    match strip_prefix(value, "http://") {
        Some(rest) => {
            return Ok(with_scheme("ws://", rest));
        },
        None => {},
    }
    match strip_prefix(value, "https://") {
        Some(rest) => {
            return Ok(with_scheme("wss://", rest));
        },
        None => {},
    }
    if contains_double_slash(value) {
        return Err(EndpointError::UnsupportedScheme);
    }
    Ok(with_scheme("ws://", value))
}

/// Whether a URL's path stands for no path at all, so that `/graphql` takes
/// its place.
pub open spec fn is_bare_path(path: Seq<char>) -> bool {
    path == "/"@ || path.len() == 0
}

/// Whether a URL's path stands for no path at all.
pub fn path_is_bare(path: &str) -> (b: bool)
    ensures
        b == is_bare_path(path@),
{
    crate::text::str_eq(path, "/") || path.is_empty()
}

/// The target of a URL form: the URL as the parser writes it, with the path
/// `/graphql` where it has none of its own. A text that the parser refuses is
/// no URL, and a URL of more than `MAX_URL_CHARS` characters gets no default
/// path.
pub open spec fn url_target(text: Seq<char>) -> Result<EndpointTargetView, EndpointError> {
    match url_normal(text) {
        None => Err(EndpointError::InvalidUrl),
        Some(url) => {
            if is_bare_path(url_path(text)->0) {
                if text.len() > MAX_URL_CHARS {
                    Err(EndpointError::TooLong)
                } else {
                    Ok(EndpointTargetView::Tcp(url_with_path(text, "/graphql"@)->0))
                }
            } else {
                Ok(EndpointTargetView::Tcp(url))
            }
        },
    }
}

/// The target of an endpoint: what its form refuses is refused, a local
/// socket stands as it is, and a URL form has the target that `url_target`
/// gives.
pub open spec fn endpoint_target(value: Seq<char>) -> Result<EndpointTargetView, EndpointError> {
    match endpoint_form(value) {
        Err(e) => Err(e),
        Ok(EndpointFormView::Unix { socket, path }) => Ok(
            EndpointTargetView::Unix { socket, path },
        ),
        Ok(EndpointFormView::Url(text)) => url_target(text),
    }
}

/// Reads an endpoint.
pub fn parse_endpoint(value: &str) -> (r: Result<EndpointTarget, EndpointError>)
    ensures
        target_result_view(r) == endpoint_target(value@),
{
    match read_endpoint_form(value) {
        Err(e) => Err(e),
        Ok(EndpointForm::Unix { socket, path }) => Ok(EndpointTarget::Unix { socket, path }),
        Ok(EndpointForm::Url(text)) => {
            let parsed = match parse_url(text.as_str()) {
                Ok(url) => url,
                Err(_) => {
                    return Err(EndpointError::InvalidUrl);
                },
            };
            let path = match path_of_url(text.as_str()) {
                Some(path) => path,
                None => {
                    return Err(EndpointError::InvalidUrl);
                },
            };
            if !path_is_bare(path.as_str()) {
                return Ok(EndpointTarget::Tcp(parsed));
            }
            if text.as_str().unicode_len() > MAX_URL_CHARS {
                return Err(EndpointError::TooLong);
            }
            proof {
                reveal_strlit("/graphql");
            }
            match set_url_path(text.as_str(), "/graphql") {
                Some(url) => Ok(EndpointTarget::Tcp(url)),
                None => Err(EndpointError::InvalidUrl),
            }
        },
    }
}

} // verus!
