//! The plain-HTTP side of the listener: request classification, the static
//! asset rules, and the text of the responses.

use crate::text::{
    after_char, before_char, contains, find_char, has_infix, has_prefix, is_space, is_space_exec,
    lstrip, push_char, push_decimal, push_hex, skip_spaces, starts_with, str_eq, trim, trimmed,
    decimal_digits, hex_digits,
};
use vstd::utf8::encode_utf8;
use vstd::prelude::*;
use vstd::string::{StrSliceExecFns, StringExecFns};

verus! {

/// The text after the last '.' of `p`, or all of `p` when it has none.
pub open spec fn extension(p: Seq<char>) -> Seq<char>
    decreases p.len(),
{
    if p.len() == 0 {
        p
    } else if p.last() == '.' {
        Seq::empty()
    } else {
        extension(p.drop_last()).push(p.last())
    }
}

/// `c` with an ASCII capital letter made small.
pub open spec fn ascii_lower(c: char) -> char {
    if 'A' <= c && c <= 'Z' {
        ((c as u32) + 32) as char
    } else {
        c
    }
}

pub open spec fn lowered(s: Seq<char>) -> Seq<char> {
    s.map_values(|c: char| ascii_lower(c))
}

/// The media type served for a file extension, its letters made small.
pub open spec fn content_type_of(ext: Seq<char>) -> Seq<char> {
    if ext == "wav"@ {
        "audio/wav"@
    } else if ext == "mp3"@ {
        "audio/mpeg"@
    } else if ext == "bmp"@ {
        "image/bmp"@
    } else if ext == "tga"@ {
        "image/x-tga"@
    } else if ext == "png"@ {
        "image/png"@
    } else if ext == "jpg"@ || ext == "jpeg"@ {
        "image/jpeg"@
    } else if ext == "res"@ || ext == "txt"@ {
        "text/plain"@
    } else {
        "application/octet-stream"@
    }
}

fn ascii_lower_exec(c: char) -> (r: char)
    ensures
        r == ascii_lower(c),
{
    if 'A' <= c && c <= 'Z' {
        ((c as u8) + 32) as char
    } else {
        c
    }
}

/// Where the extension of `p` begins.
fn extension_start(p: &str) -> (start: usize)
    ensures
        start <= p@.len(),
        extension(p@) == p@.subrange(start as int, p@.len() as int),
{
    let n = p.unicode_len();
    let mut start: usize = 0;
    let mut i: usize = 0;
    while i < n
        invariant
            n == p@.len(),
            start <= i <= n,
            extension(p@.subrange(0, i as int)) == p@.subrange(start as int, i as int),
        decreases n - i,
    {
        let c = p.get_char(i);
        let ghost pre = p@.subrange(0, i as int);
        assert(p@.subrange(0, i + 1) == pre.push(c));
        assert(p@.subrange(0, i + 1).drop_last() == pre);
        if c == '.' {
            start = i + 1;
        } else {
            assert(p@.subrange(start as int, i + 1) == p@.subrange(start as int, i as int).push(c));
        }
        i = i + 1;
    }
    assert(p@.subrange(0, n as int) == p@);
    start
}

/// Whether the text of `p` from `start` on, its ASCII letters made small, is
/// `target`.
fn tail_matches(p: &str, start: usize, target: &str) -> (r: bool)
    requires
        start <= p@.len(),
    ensures
        r == (lowered(p@.subrange(start as int, p@.len() as int)) == target@),
{
    let ghost tail = p@.subrange(start as int, p@.len() as int);
    let n = p.unicode_len();
    let m = target.unicode_len();
    if n - start != m {
        assert(lowered(tail).len() != target@.len());
        return false;
    }
    let mut j: usize = 0;
    while j < m
        invariant
            n == p@.len(),
            m == target@.len(),
            start + m == n,
            j <= m,
            tail == p@.subrange(start as int, n as int),
            forall|k: int| 0 <= k < j ==> ascii_lower(tail[k]) == target@[k],
        decreases m - j,
    {
        if ascii_lower_exec(p.get_char(start + j)) != target.get_char(j) {
            assert(lowered(tail)[j as int] != target@[j as int]);
            return false;
        }
        j = j + 1;
    }
    assert(lowered(tail) == target@);
    true
}

/// The media type of a file path, by its extension (the text after its last
/// '.', or the whole path when it has none). Letters are compared without
/// regard to case; no character other than an ASCII letter lower-cases to a
/// letter of the known extensions, so this is the lookup of the lower-cased
/// extension.
pub fn get_content_type(path: &str) -> (r: &'static str)
    ensures
        r@ == content_type_of(lowered(extension(path@))),
{
    let start = extension_start(path);
    if tail_matches(path, start, "wav") {
        "audio/wav"
    } else if tail_matches(path, start, "mp3") {
        "audio/mpeg"
    } else if tail_matches(path, start, "bmp") {
        "image/bmp"
    } else if tail_matches(path, start, "tga") {
        "image/x-tga"
    } else if tail_matches(path, start, "png") {
        "image/png"
    } else if tail_matches(path, start, "jpg") || tail_matches(path, start, "jpeg") {
        "image/jpeg"
    } else if tail_matches(path, start, "res") || tail_matches(path, start, "txt") {
        "text/plain"
    } else {
        "application/octet-stream"
    }
}

/// The value of a hexadecimal digit.
pub open spec fn hex_value(c: char) -> Option<nat> {
    if '0' <= c && c <= '9' {
        Some((c as nat - 48) as nat)
    } else if 'a' <= c && c <= 'f' {
        Some((c as nat - 87) as nat)
    } else if 'A' <= c && c <= 'F' {
        Some((c as nat - 55) as nat)
    } else {
        None
    }
}

/// The byte that the two characters after a '%' stand for: two hexadecimal
/// digits, or a '+' sign and one digit, as an unsigned number in base 16 is
/// read.
pub open spec fn escaped_byte(a: char, b: char) -> Option<nat> {
    if a == '+' {
        hex_value(b)
    } else {
        match (hex_value(a), hex_value(b)) {
            (Some(x), Some(y)) => Some(16 * x + y),
            _ => None,
        }
    }
}

/// A URL path with its escapes resolved: "%XX" becomes the character whose
/// code is the byte XX, '+' becomes a space, and a '%' without a valid escape
/// after it is kept with the (at most two) characters that follow it.
pub open spec fn url_decoded(s: Seq<char>) -> Seq<char>
    decreases s.len(),
{
    if s.len() == 0 {
        s
    } else if s[0] == '%' {
        if s.len() >= 3 && escaped_byte(s[1], s[2]) is Some {
            seq![(escaped_byte(s[1], s[2])->0) as char] + url_decoded(s.subrange(3, s.len() as int))
        } else {
            let k = if s.len() >= 3 {
                3
            } else {
                s.len() as int
            };
            s.subrange(0, k) + url_decoded(s.subrange(k, s.len() as int))
        }
    } else if s[0] == '+' {
        seq![' '] + url_decoded(s.drop_first())
    } else {
        seq![s[0]] + url_decoded(s.drop_first())
    }
}

fn hex_value_exec(c: char) -> (r: Option<u8>)
    ensures
        r matches Some(v) ==> hex_value(c) == Some(v as nat),
        r is None ==> hex_value(c) is None,
{
    if '0' <= c && c <= '9' {
        Some((c as u32 - 48) as u8)
    } else if 'a' <= c && c <= 'f' {
        Some((c as u32 - 87) as u8)
    } else if 'A' <= c && c <= 'F' {
        Some((c as u32 - 55) as u8)
    } else {
        None
    }
}

fn escaped_byte_exec(a: char, b: char) -> (r: Option<u8>)
    ensures
        r matches Some(v) ==> escaped_byte(a, b) == Some(v as nat),
        r is None ==> escaped_byte(a, b) is None,
{
    if a == '+' {
        hex_value_exec(b)
    } else {
        match (hex_value_exec(a), hex_value_exec(b)) {
            (Some(x), Some(y)) => Some(16 * x + y),
            _ => None,
        }
    }
}

/// Resolves the escapes of a URL path (see `url_decoded`).
pub fn url_decode(s: &str) -> (r: String)
    ensures
        r@ == url_decoded(s@),
{
    let n = s.unicode_len();
    let mut r = String::new();
    let mut i: usize = 0;
    assert(s@.subrange(0, n as int) == s@);
    assert(r@ + url_decoded(s@) == url_decoded(s@));
    while i < n
        invariant
            n == s@.len(),
            i <= n,
            r@ + url_decoded(s@.subrange(i as int, n as int)) == url_decoded(s@),
        decreases n - i,
    {
        let ghost rest = s@.subrange(i as int, n as int);
        let ghost r0 = r@;
        let c = s.get_char(i);
        assert(rest[0] == c);
        if c == '%' {
            let mut decoded = false;
            if n - i >= 3 {
                let a = s.get_char(i + 1);
                let b = s.get_char(i + 2);
                assert(rest[1] == a && rest[2] == b);
                match escaped_byte_exec(a, b) {
                    Some(v) => {
                        push_char(&mut r, v as char);
                        assert(rest.subrange(3, rest.len() as int) == s@.subrange(
                            i + 3,
                            n as int,
                        ));
                        assert(r@ == r0 + seq![(escaped_byte(a, b)->0) as char]);
                        i = i + 3;
                        decoded = true;
                    },
                    None => {},
                }
            }
            if !decoded {
                let k: usize = if n - i >= 3 {
                    3
                } else {
                    n - i
                };
                let mut j: usize = 0;
                while j < k
                    invariant
                        n == s@.len(),
                        i + k <= n,
                        j <= k,
                        r@ == r0 + s@.subrange(i as int, i + j),
                    decreases k - j,
                {
                    push_char(&mut r, s.get_char(i + j));
                    assert(s@.subrange(i as int, i + j + 1) == s@.subrange(i as int, i + j).push(
                        s@[i + j],
                    ));
                    j = j + 1;
                }
                assert(rest.subrange(0, k as int) == s@.subrange(i as int, i + k));
                assert(rest.subrange(k as int, rest.len() as int) == s@.subrange(
                    i + k,
                    n as int,
                ));
                i = i + k;
            }
        } else {
            if c == '+' {
                push_char(&mut r, ' ');
            } else {
                push_char(&mut r, c);
            }
            assert(rest.drop_first() == s@.subrange(i + 1, n as int));
            i = i + 1;
        }
    }
    assert(s@.subrange(n as int, n as int) == Seq::<char>::empty());
    r
}

/// The leading run of characters of `s` that are not white space.
pub open spec fn word(s: Seq<char>) -> Seq<char>
    decreases s.len(),
{
    if s.len() == 0 || is_space(s[0]) {
        Seq::empty()
    } else {
        seq![s[0]] + word(s.drop_first())
    }
}

/// The `k`-th word of `s` (from 0), words being separated by white space, as
/// `str::split_whitespace` yields them.
pub open spec fn nth_word(s: Seq<char>, k: nat) -> Option<Seq<char>>
    decreases k,
{
    let t = lstrip(s);
    if t.len() == 0 {
        None
    } else if k == 0 {
        Some(word(t))
    } else {
        nth_word(t.subrange(word(t).len() as int, t.len() as int), (k - 1) as nat)
    }
}

/// The method and path of a request line: its first two words, "GET" and
/// "/" where they are missing.
pub open spec fn request_target(line: Seq<char>) -> (Seq<char>, Seq<char>) {
    (
        match nth_word(line, 0) {
            Some(m) => m,
            None => "GET"@,
        },
        match nth_word(line, 1) {
            Some(p) => p,
            None => "/"@,
        },
    )
}

/// The first index from `from` on where `s` holds white space (or the length).
fn word_end(s: &str, from: usize) -> (i: usize)
    requires
        from <= s@.len(),
    ensures
        from <= i <= s@.len(),
        s@.subrange(from as int, i as int) == word(s@.subrange(from as int, s@.len() as int)),
{
    let n = s.unicode_len();
    let mut i = from;
    while i < n && !is_space_exec(s.get_char(i))
        invariant
            n == s@.len(),
            from <= i <= n,
            word(s@.subrange(from as int, n as int)) == s@.subrange(from as int, i as int) + word(
                s@.subrange(i as int, n as int),
            ),
        decreases n - i,
    {
        let ghost rest = s@.subrange(i as int, n as int);
        assert(rest.drop_first() == s@.subrange(i + 1, n as int));
        assert(s@.subrange(from as int, i + 1) == s@.subrange(from as int, i as int).push(s@[i as int]));
        assert(s@.subrange(from as int, i as int) + (seq![rest[0]] + word(rest.drop_first()))
            == s@.subrange(from as int, i + 1) + word(rest.drop_first()));
        i = i + 1;
    }
    let ghost rest = s@.subrange(i as int, n as int);
    assert(word(rest) == Seq::<char>::empty());
    assert(s@.subrange(from as int, i as int) + Seq::<char>::empty() == s@.subrange(from as int, i as int));
    i
}

/// The method and path of a request line (see `request_target`).
pub fn parse_request_line(line: &str) -> (r: (String, String))
    ensures
        (r.0@, r.1@) == request_target(line@),
{
    let n = line.unicode_len();
    assert(line@.subrange(0, n as int) == line@);
    let i0 = skip_spaces(line, 0);
    if i0 == n {
        assert(lstrip(line@).len() == 0);
        return (String::from_str("GET"), String::from_str("/"));
    }
    let e0 = word_end(line, i0);
    let method = String::from_str(line.substring_char(i0, e0));
    let ghost t = lstrip(line@);
    assert(t == line@.subrange(i0 as int, n as int));
    assert(t.subrange(word(t).len() as int, t.len() as int) == line@.subrange(e0 as int, n as int));
    let ghost u = line@.subrange(e0 as int, n as int);
    assert(nth_word(line@, 1) == nth_word(u, 0));
    let i1 = skip_spaces(line, e0);
    assert(lstrip(u) == line@.subrange(i1 as int, n as int));
    if i1 == n {
        assert(nth_word(u, 0) is None);
        return (method, String::from_str("/"));
    }
    let e1 = word_end(line, i1);
    assert(nth_word(u, 0) == Some(word(line@.subrange(i1 as int, n as int))));
    (method, String::from_str(line.substring_char(i1, e1)))
}

/// What a plain HTTP request asks for.
#[derive(Clone, Copy, Debug, PartialEq, Eq, Structural)]
pub enum Route {
    /// A cross-origin preflight (`OPTIONS`).
    Preflight,
    /// A game asset under "/cstrike/".
    StaticAsset,
    /// The health probe.
    Health,
    NotFound,
}

pub open spec fn route_of(method: Seq<char>, path: Seq<char>) -> Route {
    if method == "OPTIONS"@ {
        Route::Preflight
    } else if method == "GET"@ && has_prefix(path, "/cstrike/"@) {
        Route::StaticAsset
    } else if method == "GET"@ && path == "/health"@ {
        Route::Health
    } else {
        Route::NotFound
    }
}

/// The route of a request's method and path.
pub fn route(method: &str, path: &str) -> (r: Route)
    ensures
        r == route_of(method@, path@),
{
    if str_eq(method, "OPTIONS") {
        Route::Preflight
    } else if str_eq(method, "GET") && starts_with(path, "/cstrike/") {
        Route::StaticAsset
    } else if str_eq(method, "GET") && str_eq(path, "/health") {
        Route::Health
    } else {
        Route::NotFound
    }
}

/// The headers that allow cross-origin requests, without a final line end.
pub open spec fn cors_headers() -> Seq<char> {
    "Access-Control-Allow-Origin: *\r\nAccess-Control-Allow-Methods: *\r\nAccess-Control-Allow-Headers: *\r\nAccess-Control-Max-Age: 86400"@
}

/// The reply to a preflight request.
pub open spec fn preflight_text() -> Seq<char> {
    "HTTP/1.1 204 No Content\r\n"@ + cors_headers() + "\r\nContent-Length: 0\r\nConnection: close\r\n\r\n"@
}

/// The head of a reply: status line, cross-origin headers, content type and
/// length.
pub open spec fn reply_head(status: Seq<char>, content_type: Seq<char>, length: nat) -> Seq<char> {
    "HTTP/1.1 "@ + status + "\r\n"@ + cors_headers() + "\r\nContent-Type: "@ + content_type
        + "\r\nContent-Length: "@ + decimal_digits(length) + "\r\nConnection: close\r\n\r\n"@
}

/// The length of a text in UTF-8 bytes, as `str::len` gives it (a text in
/// memory never has more bytes than `usize` counts).
pub open spec fn byte_len(s: Seq<char>) -> nat {
    (encode_utf8(s).len() as usize) as nat
}

/// A complete reply whose body is `body`; its length counts UTF-8 bytes.
pub open spec fn reply_text(status: Seq<char>, content_type: Seq<char>, body: Seq<char>) -> Seq<
    char,
> {
    reply_head(status, content_type, byte_len(body)) + body
}

/// The reply to a preflight request.
pub fn preflight_reply() -> (r: String)
    ensures
        r@ == preflight_text(),
{
    let mut r = String::from_str("HTTP/1.1 204 No Content\r\n");
    r.append("Access-Control-Allow-Origin: *\r\nAccess-Control-Allow-Methods: *\r\nAccess-Control-Allow-Headers: *\r\nAccess-Control-Max-Age: 86400");
    r.append("\r\nContent-Length: 0\r\nConnection: close\r\n\r\n");
    r
}

/// The head of a reply whose body is `length` bytes long.
pub fn reply_head_text(status: &str, content_type: &str, length: u64) -> (r: String)
    ensures
        r@ == reply_head(status@, content_type@, length as nat),
{
    let mut r = String::from_str("HTTP/1.1 ");
    r.append(status);
    r.append("\r\n");
    r.append("Access-Control-Allow-Origin: *\r\nAccess-Control-Allow-Methods: *\r\nAccess-Control-Allow-Headers: *\r\nAccess-Control-Max-Age: 86400");
    r.append("\r\nContent-Type: ");
    r.append(content_type);
    r.append("\r\nContent-Length: ");
    push_decimal(&mut r, length);
    r.append("\r\nConnection: close\r\n\r\n");
    r
}

/// A complete plain-text reply: the head, then `message`.
pub fn error_response(status: &str, message: &str) -> (r: String)
    ensures
        r@ == reply_text(status@, "text/plain"@, message@),
{
    let mut r = reply_head_text(status, "text/plain", message.len() as u64);
    r.append(message);
    r
}

/// What to send for a plain HTTP request.
pub enum HttpReply {
    /// Send this text and close.
    Text(String),
    /// Serve the asset at this URL path (see `static_asset_path`).
    Asset(String),
}

pub open spec fn http_reply_of(line: Seq<char>) -> (bool, Seq<char>) {
    let (method, path) = request_target(line);
    match route_of(method, path) {
        Route::Preflight => (false, preflight_text()),
        Route::StaticAsset => (true, path),
        Route::Health => (false, reply_text("200 OK"@, "text/plain"@, "OK"@)),
        Route::NotFound => (false, reply_text("404 Not Found"@, "text/plain"@, "Not Found"@)),
    }
}

impl HttpReply {
    /// Whether this is an asset, and the text or the path it holds.
    pub open spec fn view(self) -> (bool, Seq<char>) {
        match self {
            HttpReply::Text(t) => (false, t@),
            HttpReply::Asset(p) => (true, p@),
        }
    }
}

/// The reply to a plain HTTP request with this request line.
pub fn http_reply(first_line: &str) -> (r: HttpReply)
    ensures
        r.view() == http_reply_of(first_line@),
{
    let (method, path) = parse_request_line(first_line);
    match route(method.as_str(), path.as_str()) {
        Route::Preflight => HttpReply::Text(preflight_reply()),
        Route::StaticAsset => HttpReply::Asset(path),
        Route::Health => HttpReply::Text(error_response("200 OK", "OK")),
        Route::NotFound => HttpReply::Text(error_response("404 Not Found", "Not Found")),
    }
}

/// Why an asset request is refused.
#[derive(Clone, Copy, Debug, PartialEq, Eq, Structural)]
pub enum AssetRefusal {
    /// The path climbs out of the asset tree or is absolute.
    AccessDenied,
    /// The path's first folder is not one of the served folders.
    FolderNotAllowed,
}

impl AssetRefusal {
    /// The reply text of the refusal.
    pub fn message(self) -> (r: &'static str)
        ensures
            self == AssetRefusal::AccessDenied ==> r@ == "Access denied"@,
            self == AssetRefusal::FolderNotAllowed ==> r@ == "Folder not allowed"@,
    {
        match self {
            AssetRefusal::AccessDenied => "Access denied",
            AssetRefusal::FolderNotAllowed => "Folder not allowed",
        }
    }
}

/// The folders of the game directory that are served.
pub open spec fn allowed_folder(f: Seq<char>) -> bool {
    f == "sound"@ || f == "sprites"@ || f == "gfx"@ || f == "maps"@ || f == "models"@ || f
        == "overviews"@
}

/// The asset path, relative to the game directory, that a URL path names, or
/// why it is refused.
pub open spec fn asset_path_of(url_path: Seq<char>) -> Result<Seq<char>, AssetRefusal> {
    let rel = url_decoded(
        if has_prefix(url_path, "/cstrike/"@) {
            url_path.subrange(9, url_path.len() as int)
        } else {
            Seq::empty()
        },
    );
    if has_infix(rel, ".."@) || has_prefix(rel, "/"@) {
        Err(AssetRefusal::AccessDenied)
    } else if !allowed_folder(before_char(rel, '/')) {
        Err(AssetRefusal::FolderNotAllowed)
    } else {
        Ok(rel)
    }
}

/// The asset path that a URL path under "/cstrike/" names: the rest of the
/// path, its escapes resolved. Refused when it holds "..", starts with '/',
/// or its first folder is not one of the served folders.
pub fn static_asset_path(url_path: &str) -> (r: Result<String, AssetRefusal>)
    ensures
        match r {
            Ok(p) => asset_path_of(url_path@) == Ok::<Seq<char>, AssetRefusal>(p@),
            Err(e) => asset_path_of(url_path@) == Err::<Seq<char>, AssetRefusal>(e),
        },
{
    let n = url_path.unicode_len();
    let prefixed = starts_with(url_path, "/cstrike/");
    proof {
        reveal_strlit("/cstrike/");
    }
    let rest = if prefixed {
        url_path.substring_char(9, n)
    } else {
        ""
    };
    proof {
        reveal_strlit("");
        assert(""@ =~= Seq::<char>::empty());
    }
    assert(rest@ == (if has_prefix(url_path@, "/cstrike/"@) {
        url_path@.subrange(9, url_path@.len() as int)
    } else {
        Seq::<char>::empty()
    }));
    let rel = url_decode(rest);
    if contains(rel.as_str(), "..") || starts_with(rel.as_str(), "/") {
        return Err(AssetRefusal::AccessDenied);
    }
    let end = find_char(rel.as_str(), 0, '/');
    assert(rel@.subrange(0, rel@.len() as int) == rel@);
    let folder = rel.as_str().substring_char(0, end);
    if str_eq(folder, "sound") || str_eq(folder, "sprites") || str_eq(folder, "gfx") || str_eq(
        folder,
        "maps",
    ) || str_eq(folder, "models") || str_eq(folder, "overviews") {
        Ok(rel)
    } else {
        Err(AssetRefusal::FolderNotAllowed)
    }
}

/// The reply head of an asset of `length` bytes.
pub fn asset_reply_head(asset_path: &str, length: u64) -> (r: String)
    ensures
        r@ == reply_head("200 OK"@, content_type_of(lowered(extension(asset_path@))), length as nat),
{
    reply_head_text("200 OK", get_content_type(asset_path), length)
}

/// The text of `s` with letters made small, as `str::to_lowercase` gives it.
pub uninterp spec fn lower_of(s: Seq<char>) -> Seq<char>;

/// Relies on `str::to_lowercase`: the lower-case form of each character, which
/// depends on the characters alone.
#[verifier::external_body]
fn lowercase(s: &str) -> (r: String)
    ensures
        r@ == lower_of(s@),
{
    s.to_lowercase()
}

/// The second of the `c`-separated fields of `s`, or nothing when `s` holds
/// no `c` (as `s.split(c).nth(1).unwrap_or("")` gives it).
pub open spec fn second_field(s: Seq<char>, c: char) -> Seq<char> {
    match after_char(s, c) {
        Some(rest) => before_char(rest, c),
        None => Seq::empty(),
    }
}

/// What the head of a request says about a WebSocket upgrade.
pub struct RequestHeadView {
    /// The request line names a WebSocket path.
    pub websocket_path: bool,
    /// An `Upgrade` header asks for a WebSocket.
    pub upgrade: bool,
    /// The `Sec-WebSocket-Key` header's value, trimmed.
    pub key: Seq<char>,
}

impl RequestHeadView {
    /// The head after one more header line.
    pub open spec fn with_header(self, line: Seq<char>) -> RequestHeadView {
        let lower = lower_of(line);
        RequestHeadView {
            websocket_path: self.websocket_path,
            upgrade: self.upgrade || (has_prefix(lower, "upgrade:"@) && has_infix(
                lower,
                "websocket"@,
            )),
            key: if has_prefix(lower, "sec-websocket-key:"@) {
                trimmed(second_field(line, ':'))
            } else {
                self.key
            },
        }
    }

    pub open spec fn is_upgrade(self) -> bool {
        self.websocket_path && self.upgrade && self.key.len() > 0
    }
}

/// The head of an incoming request, read line by line, to tell a WebSocket
/// upgrade from a plain HTTP request.
pub struct RequestHead {
    websocket_path: bool,
    upgrade: bool,
    key: String,
}

impl View for RequestHead {
    type V = RequestHeadView;

    closed spec fn view(&self) -> RequestHeadView {
        RequestHeadView { websocket_path: self.websocket_path, upgrade: self.upgrade, key: self.key@ }
    }
}

impl RequestHead {
    /// The head of a request with this request line: it names a WebSocket
    /// path when it holds "/ws" or "/websocket".
    pub fn new(first_line: &str) -> (h: Self)
        ensures
            h@ == (RequestHeadView {
                websocket_path: has_infix(first_line@, "/ws"@) || has_infix(
                    first_line@,
                    "/websocket"@,
                ),
                upgrade: false,
                key: Seq::empty(),
            }),
    {
        RequestHead {
            websocket_path: contains(first_line, "/ws") || contains(first_line, "/websocket"),
            upgrade: false,
            key: String::new(),
        }
    }

    /// Reads one header line. Header names are matched without regard to case.
    pub fn add_header(&mut self, line: &str)
        ensures
            final(self)@ == old(self)@.with_header(line@),
    {
        let lower = lowercase(line);
        if starts_with(lower.as_str(), "upgrade:") && contains(lower.as_str(), "websocket") {
            self.upgrade = true;
        }
        if starts_with(lower.as_str(), "sec-websocket-key:") {
            let n = line.unicode_len();
            assert(line@.subrange(0, n as int) == line@);
            let i = find_char(line, 0, ':');
            if i == n {
                proof {
                    reveal_strlit("");
                    assert(""@ =~= Seq::<char>::empty());
                    assert(lstrip(Seq::<char>::empty()) == Seq::<char>::empty());
                    assert(trimmed(Seq::<char>::empty()) == Seq::<char>::empty());
                }
                self.key = trim("");
            } else {
                let j = find_char(line, i + 1, ':');
                self.key = trim(line.substring_char(i + 1, j));
            }
        }
    }

    /// Whether the request is a WebSocket upgrade: a WebSocket path, an
    /// `Upgrade: websocket` header and a non-empty key.
    pub fn is_websocket_upgrade(&self) -> (r: bool)
        ensures
            r == self@.is_upgrade(),
    {
        self.websocket_path && self.upgrade && self.key.unicode_len() > 0
    }
}

/// Whether a header line read with `bytes_read` bytes ends the head: the end
/// of the stream, or an empty line.
pub fn is_head_end(bytes_read: usize, line: &str) -> (r: bool)
    ensures
        r == (bytes_read == 0 || line@ == "\r\n"@ || line@ == "\n"@),
{
    bytes_read == 0 || str_eq(line, "\r\n") || str_eq(line, "\n")
}

/// A short token made of a time: its seconds and then its nanoseconds, both
/// in lower-case hexadecimal.
pub fn uuid_simple(secs: u64, nanos: u32) -> (r: String)
    ensures
        r@ == hex_digits(secs as nat) + hex_digits(nanos as nat),
{
    let mut r = String::new();
    push_hex(&mut r, secs);
    push_hex(&mut r, nanos as u64);
    r
}

/// The diagnostic name of a client: its address, a dash, and a time token.
pub fn client_name(peer: &str, secs: u64, nanos: u32) -> (r: String)
    ensures
        r@ == peer@ + "-"@ + hex_digits(secs as nat) + hex_digits(nanos as nat),
{
    let mut r = String::from_str(peer);
    r.append("-");
    let t = uuid_simple(secs, nanos);
    r.append(t.as_str());
    r
}

} // verus!
