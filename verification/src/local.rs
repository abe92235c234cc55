//! The local bundle server: which requests are static resources, which file
//! under the installed-applications root a request path names, and what the
//! response for that file looks like.
//!
//! A request path is text from outside. The file it names is read only
//! where it lies below the root: a name with a segment `..`, with a leading
//! separator or with a `:` resolves to nothing, and the request is answered
//! with status 404.

use vstd::prelude::*;
use vstd::slice::slice_subrange;
use vstd::string::StringExecFns;
use crate::http::{
    create_error_response, error_response, header, make_header, Header, Response, ResponseView,
};
use crate::text::{
    chars_of, eq_ignore_case, find, find_char_from, leading_run, lemma_find_char_absent,
    lemma_find_char_at, lemma_find_from_is_first, lemma_skip_run, lemma_trimmed_len,
    rfind_char_before, rfind_char_in, same_chars, same_chars_ignore_case, skip_run,
    trailing_trimmed_len, trim_end, trim_start, trimmed_len,
};

verus! {

/// Content security policy attached to every locally served file.
pub const LOCAL_CONTENT_SECURITY_POLICY: &'static str =
    "default-src 'self' 'unsafe-inline' sandra-app: asset: tauri: data: blob: http: https: ws: wss:;";

/// Length of `path.take(n)` once the segments at its end that name nothing
/// are dropped: the empty ones and the ones that read `.`.
pub open spec fn named_len(path: Seq<char>, n: int) -> int
    decreases n,
{
    if 0 < n <= path.len() && path[n - 1] == '/' {
        named_len(path, n - 1)
    } else if 2 <= n <= path.len() && path[n - 1] == '.' && path[n - 2] == '/' {
        named_len(path, n - 2)
    } else {
        n
    }
}

/// Index at which the segment that ends at `end` starts: just after the
/// last `/` before `end`, or 0 when there is none.
pub open spec fn segment_start(path: Seq<char>, end: int) -> int {
    match rfind_char_before(path, '/', end) {
        Some(i) => i + 1,
        None => 0,
    }
}

/// Where the extension of `path` starts and ends, if it has one.
///
/// The file name is the last segment of `path` that names something. Its
/// extension is what follows its last `.`, unless that `.` opens the name
/// or the name reads `..`.
pub open spec fn extension_range(path: Seq<char>) -> Option<(int, int)> {
    let end = named_len(path, path.len() as int);
    let start = segment_start(path, end);
    match rfind_char_before(path, '.', end) {
        Some(dot) => if dot > start && !(end == start + 2 && path[start] == '.') {
            Some((dot + 1, end))
        } else {
            None
        },
        None => None,
    }
}

/// The extension of `path`: what follows the last `.` of its file name.
/// A name such as `.profile`, whose only `.` comes first, has none, and a
/// trailing `/.` is passed over: `a/b.js/.` has the extension `js`.
pub open spec fn extension(path: Seq<char>) -> Option<Seq<char>> {
    match extension_range(path) {
        Some((from, to)) => Some(path.subrange(from, to)),
        None => None,
    }
}

/// `ext` is one of the extensions that are always served from the local
/// bundle, whatever the case of its letters.
pub open spec fn is_static_extension(ext: Seq<char>) -> bool {
    ||| eq_ignore_case(ext, "html"@)
    ||| eq_ignore_case(ext, "htm"@)
    ||| eq_ignore_case(ext, "js"@)
    ||| eq_ignore_case(ext, "css"@)
    ||| eq_ignore_case(ext, "png"@)
    ||| eq_ignore_case(ext, "jpg"@)
    ||| eq_ignore_case(ext, "jpeg"@)
    ||| eq_ignore_case(ext, "svg"@)
    ||| eq_ignore_case(ext, "gif"@)
    ||| eq_ignore_case(ext, "ico"@)
    ||| eq_ignore_case(ext, "woff"@)
    ||| eq_ignore_case(ext, "woff2"@)
    ||| eq_ignore_case(ext, "ttf"@)
    ||| eq_ignore_case(ext, "eot"@)
    ||| eq_ignore_case(ext, "map"@)
    ||| eq_ignore_case(ext, "json"@)
}

/// `path` ends in `/`.
pub open spec fn is_directory_path(path: Seq<char>) -> bool {
    path.len() > 0 && path.last() == '/'
}

/// `path` names a static resource: a directory navigation, or a file whose
/// extension is on the allowlist.
pub open spec fn static_resource(path: Seq<char>) -> bool {
    is_directory_path(path) || match extension(path) {
        Some(ext) => is_static_extension(ext),
        None => false,
    }
}

/// The file `asset` inside the `dist` directory of application `app_id`.
pub open spec fn under_dist(app_id: Seq<char>, asset: Seq<char>) -> Seq<char> {
    if app_id.len() == 0 {
        "dist/"@ + asset
    } else {
        app_id + "/dist/"@ + asset
    }
}

/// A character that separates the segments of a file path on some
/// platform.
pub open spec fn is_separator(c: char) -> bool {
    c == '/' || c == '\\'
}

/// A segment that reads `..` starts at index `i` of `relative`.
pub open spec fn parent_segment_at(relative: Seq<char>, i: int) -> bool {
    &&& 0 <= i
    &&& i + 2 <= relative.len()
    &&& relative[i] == '.'
    &&& relative[i + 1] == '.'
    &&& (i == 0 || is_separator(relative[i - 1]))
    &&& (i + 2 == relative.len() || is_separator(relative[i + 2]))
}

/// `relative` has a segment that reads `..`.
pub open spec fn climbs(relative: Seq<char>) -> bool {
    exists|i: int| parent_segment_at(relative, i)
}

/// Joined to the root, `relative` names a place below the root: it has no
/// segment that reads `..`, does not begin with a separator, and holds no
/// `:` (which marks a drive or a stream on some platforms).
pub open spec fn stays_below_root(relative: Seq<char>) -> bool {
    &&& !climbs(relative)
    &&& relative.len() > 0 ==> !is_separator(relative[0])
    &&& forall|i: int| 0 <= i < relative.len() ==> relative[i] != ':'
}

/// The file that `path` names by the rule of the local bundle server,
/// relative to the installed-applications root.
///
/// Leading slashes are dropped. A path that ends in `/` names the index
/// page of the application called by what is left. Any other path is cut at
/// its first `/` into an application id and an asset path. A path with
/// nothing to cut is taken as it stands.
///
/// What comes out may still point above the root; see
/// [`local_relative_path`].
pub open spec fn named_local_path(path: Seq<char>) -> Seq<char> {
    let clean = trim_start(path, '/');
    if is_directory_path(path) {
        under_dist(trim_end(clean, '/'), "index.html"@)
    } else {
        match find(clean, seq!['/']) {
            Some(i) => under_dist(clean.take(i), clean.skip(i + 1)),
            None => clean,
        }
    }
}

/// The file below the installed-applications root that `path` resolves
/// to: the one it names, where that stays below the root, and none
/// otherwise.
pub open spec fn local_relative_path(path: Seq<char>) -> Option<Seq<char>> {
    if stays_below_root(named_local_path(path)) {
        Some(named_local_path(path))
    } else {
        None
    }
}

/// The content type served for the file `relative`, by its extension.
pub open spec fn content_type(relative: Seq<char>) -> Seq<char> {
    match extension(relative) {
        Some(ext) => if ext == "html"@ {
            "text/html"@
        } else if ext == "js"@ {
            "application/javascript"@
        } else if ext == "css"@ {
            "text/css"@
        } else if ext == "svg"@ {
            "image/svg+xml"@
        } else if ext == "png"@ {
            "image/png"@
        } else if ext == "json"@ {
            "application/json"@
        } else if ext == "woff"@ || ext == "woff2"@ {
            "font/woff2"@
        } else if ext == "ttf"@ {
            "font/ttf"@
        } else {
            "application/octet-stream"@
        },
        None => "application/octet-stream"@,
    }
}

/// The response that serves `content` as the file `relative`.
pub open spec fn file_response(relative: Seq<char>, content: Seq<u8>) -> ResponseView {
    ResponseView {
        status: 200,
        headers: seq![
            header("content-type"@, content_type(relative)),
            header("Access-Control-Allow-Origin"@, "*"@),
            header("Content-Security-Policy"@, LOCAL_CONTENT_SECURITY_POLICY@),
        ],
        body: content,
    }
}

/// The response for `content` handed in as the file `relative`: the file
/// is served where it lies below the root, and counts as not found where
/// it does not.
pub open spec fn served_file(relative: Seq<char>, content: Seq<u8>) -> ResponseView {
    if stays_below_root(relative) {
        file_response(relative, content)
    } else {
        missing_file_response(relative)
    }
}

/// The response for a file that does not exist and that no fallback
/// resolved.
pub open spec fn missing_file_response(relative: Seq<char>) -> ResponseView {
    error_response(404, "Local file not found: "@ + relative)
}

/// The response for a file that exists but could not be read.
pub open spec fn unreadable_file_response() -> ResponseView {
    error_response(404, "File not found locally"@)
}

/// The path that a request names never starts with `/`.
pub proof fn lemma_named_local_path_is_relative(path: Seq<char>)
    ensures
        named_local_path(path).len() > 0 ==> named_local_path(path)[0] != '/',
{
    reveal_strlit("dist/");
    reveal_strlit("/dist/");
    let clean = trim_start(path, '/');
    lemma_skip_run(path, '/', 0);
    if is_directory_path(path) {
        lemma_trimmed_len(clean, '/', clean.len() as int);
    } else {
        lemma_find_from_is_first(clean, seq!['/'], 0);
    }
}

/// `/<app_id>/` names the index page of the application `app_id`.
pub proof fn lemma_index_path(app_id: Seq<char>)
    requires
        app_id.len() > 0,
        app_id.first() != '/',
        app_id.last() != '/',
    ensures
        named_local_path(seq!['/'] + app_id + seq!['/']) == app_id + "/dist/index.html"@,
{
    let path = seq!['/'] + app_id + seq!['/'];
    assert(skip_run(path, '/', 1) == 1);
    let clean = trim_start(path, '/');
    let n = clean.len() as int;
    assert(trimmed_len(clean, '/', n - 1) == n - 1);
    reveal_strlit("/dist/");
    reveal_strlit("index.html");
    reveal_strlit("/dist/index.html");
}

/// `/<app_id>/<asset>` names the file `asset` in the `dist` directory of the
/// application `app_id`.
pub proof fn lemma_asset_path(app_id: Seq<char>, asset: Seq<char>)
    requires
        app_id.len() > 0,
        forall|i: int| 0 <= i < app_id.len() ==> app_id[i] != '/',
        asset.len() > 0,
        asset.last() != '/',
    ensures
        named_local_path(seq!['/'] + app_id + seq!['/'] + asset) == app_id + "/dist/"@ + asset,
{
    let path = seq!['/'] + app_id + seq!['/'] + asset;
    assert(skip_run(path, '/', 1) == 1);
    let clean = trim_start(path, '/');
    let cut = app_id.len() as int;
    assert(forall|j: int| 0 <= j < cut ==> clean[j] != '/');
    lemma_find_char_at(clean, '/', 0, cut);
}

/// `/<name>`, with nothing to cut, names `name` as it stands.
pub proof fn lemma_bare_path(name: Seq<char>)
    requires
        name.len() > 0,
        forall|i: int| 0 <= i < name.len() ==> name[i] != '/',
    ensures
        named_local_path(seq!['/'] + name) == name,
{
    let path = seq!['/'] + name;
    assert(skip_run(path, '/', 1) == 1);
    let clean = trim_start(path, '/');
    lemma_find_char_absent(clean, '/', 0);
}

/// A path that resolves does so to the file it names, and that file has no
/// segment that reads `..`, begins with no separator and holds no `:`.
pub proof fn lemma_resolved_path_stays_below_root(path: Seq<char>)
    ensures
        match local_relative_path(path) {
            Some(relative) => {
                &&& relative == named_local_path(path)
                &&& stays_below_root(relative)
                &&& forall|i: int| !parent_segment_at(relative, i)
            },
            None => !stays_below_root(named_local_path(path)),
        },
{
}

/// A path with a segment `..` between two slashes after its first segment
/// does not resolve.
pub proof fn lemma_climbing_path_does_not_resolve(
    app_id: Seq<char>,
    before: Seq<char>,
    after: Seq<char>,
)
    requires
        app_id.len() > 0,
        forall|i: int| 0 <= i < app_id.len() ==> app_id[i] != '/',
        after.len() > 0,
        after.last() != '/',
    ensures
        local_relative_path(
            seq!['/'] + app_id + seq!['/'] + before + seq!['/', '.', '.', '/'] + after,
        ) is None,
{
    let asset = before + seq!['/', '.', '.', '/'] + after;
    lemma_asset_path(app_id, asset);
    reveal_strlit("/dist/");
    let head = app_id + "/dist/"@;
    let named = head + asset;
    assert(seq!['/'] + app_id + seq!['/'] + before + seq!['/', '.', '.', '/'] + after =~= seq!['/']
        + app_id + seq!['/'] + asset);
    let at = (head.len() + before.len() + 1) as int;
    assert(parent_segment_at(named, at));
}

/// Length of `path` once the segments at its end that name nothing are
/// dropped.
fn named_len_of(path: &[char]) -> (r: usize)
    ensures
        r == named_len(path@, path@.len() as int),
        r <= path.len(),
{
    let mut n: usize = path.len();
    while n > 0
        invariant
            n <= path.len(),
            named_len(path@, path@.len() as int) == named_len(path@, n as int),
        decreases n,
    {
        if path[n - 1] == '/' {
            n -= 1;
        } else if n >= 2 && path[n - 1] == '.' && path[n - 2] == '/' {
            n -= 2;
        } else {
            return n;
        }
    }
    n
}

/// Finds where the extension of `path` starts and ends.
fn extension_range_of(path: &[char]) -> (r: Option<(usize, usize)>)
    ensures
        match r {
            Some((from, to)) => extension_range(path@) == Some((from as int, to as int)) && from
                <= to <= path.len(),
            None => extension_range(path@) is None,
        },
{
    let end = named_len_of(path);
    let start: usize = match rfind_char_in(path, '/', end) {
        Some(i) => i + 1,
        None => 0,
    };
    match rfind_char_in(path, '.', end) {
        Some(dot) => if dot > start && !(end == start + 2 && path[start] == '.') {
            Some((dot + 1, end))
        } else {
            None
        },
        None => None,
    }
}

/// Tests `ext` against one allowlist entry.
fn is_extension(ext: &[char], entry: &str) -> (r: bool)
    ensures
        r == eq_ignore_case(ext@, entry@),
{
    let e = chars_of(entry);
    same_chars_ignore_case(ext, e.as_slice())
}

/// Tests `ext` against one extension, letter case included.
fn is_exact_extension(ext: &[char], entry: &str) -> (r: bool)
    ensures
        r == (ext@ == entry@),
{
    let e = chars_of(entry);
    same_chars(ext, e.as_slice())
}

/// Tests whether `ext` is on the static allowlist.
pub fn is_static_extension_chars(ext: &[char]) -> (r: bool)
    ensures
        r == is_static_extension(ext@),
{
    is_extension(ext, "html") || is_extension(ext, "htm") || is_extension(ext, "js")
        || is_extension(ext, "css") || is_extension(ext, "png") || is_extension(ext, "jpg")
        || is_extension(ext, "jpeg") || is_extension(ext, "svg") || is_extension(ext, "gif")
        || is_extension(ext, "ico") || is_extension(ext, "woff") || is_extension(ext, "woff2")
        || is_extension(ext, "ttf") || is_extension(ext, "eot") || is_extension(ext, "map")
        || is_extension(ext, "json")
}

/// Tests whether `path` must be served from the local bundle: it ends in `/`
/// or its extension is on the static allowlist.
pub fn is_static_resource(path: &str) -> (r: bool)
    ensures
        r == static_resource(path@),
{
    let chars = chars_of(path);
    let n = chars.len();
    if n > 0 && chars[n - 1] == '/' {
        return true;
    }
    match extension_range_of(chars.as_slice()) {
        Some((from, to)) => {
            let ext = slice_subrange(chars.as_slice(), from, to);
            is_static_extension_chars(ext)
        },
        None => false,
    }
}

/// Builds the path of `asset` inside the `dist` directory of `app_id`.
pub fn build_under_dist(app_id: &str, asset: &str) -> (r: String)
    ensures
        r@ == under_dist(app_id@, asset@),
{
    if app_id.unicode_len() == 0 {
        let r = String::from_str("dist/").concat(asset);
        r
    } else {
        let r = String::from_str(app_id).concat("/dist/").concat(asset);
        r
    }
}

/// Tests whether `c` separates the segments of a file path.
fn is_separator_char(c: char) -> (r: bool)
    ensures
        r == is_separator(c),
{
    c == '/' || c == '\\'
}

/// Tests whether `relative`, joined to the root, names a place below the
/// root.
pub fn is_below_root(relative: &str) -> (r: bool)
    ensures
        r == stays_below_root(relative@),
{
    let chars = chars_of(relative);
    let n = chars.len();
    if n > 0 && is_separator_char(chars[0]) {
        return false;
    }
    let mut i: usize = 0;
    while i < n
        invariant
            i <= n,
            n == chars@.len(),
            chars@ == relative@,
            forall|j: int| 0 <= j < i ==> !parent_segment_at(chars@, j) && chars@[j] != ':',
        decreases n - i,
    {
        if chars[i] == ':' {
            return false;
        }
        if chars[i] == '.' && i + 1 < n && chars[i + 1] == '.' {
            let opens = i == 0 || is_separator_char(chars[i - 1]);
            let closes = i + 2 == n || is_separator_char(chars[i + 2]);
            if opens && closes {
                assert(parent_segment_at(chars@, i as int));
                return false;
            }
        }
        i += 1;
    }
    true
}

/// Names the file that a request path stands for by the rule of the local
/// bundle server. The name is for telling what was asked for; what may be
/// read is what [`resolve_local_path`] gives.
pub fn name_local_path(path: &str) -> (r: String)
    ensures
        r@ == named_local_path(path@),
        r@.len() > 0 ==> r@[0] != '/',
{
    proof {
        lemma_named_local_path_is_relative(path@);
    }
    let chars = chars_of(path);
    let n = chars.len();
    let skipped = leading_run(chars.as_slice(), '/');
    let clean = slice_subrange(chars.as_slice(), skipped, n);
    if n > 0 && chars[n - 1] == '/' {
        let kept = trailing_trimmed_len(clean, '/');
        let app_id = path.substring_char(skipped, skipped + kept);
        build_under_dist(app_id, "index.html")
    } else {
        match find_char_from(clean, '/', 0) {
            Some(i) => {
                let app_id = path.substring_char(skipped, skipped + i);
                let asset = path.substring_char(skipped + i + 1, n);
                build_under_dist(app_id, asset)
            },
            None => {
                let whole = path.substring_char(skipped, n);
                String::from_str(whole)
            },
        }
    }
}

/// Picks the content type for the file `relative` by its extension.
pub fn content_type_for(relative: &str) -> (r: &'static str)
    ensures
        r@ == content_type(relative@),
{
    let chars = chars_of(relative);
    match extension_range_of(chars.as_slice()) {
        Some((from, to)) => {
            let ext = slice_subrange(chars.as_slice(), from, to);
            if is_exact_extension(ext, "html") {
                "text/html"
            } else if is_exact_extension(ext, "js") {
                "application/javascript"
            } else if is_exact_extension(ext, "css") {
                "text/css"
            } else if is_exact_extension(ext, "svg") {
                "image/svg+xml"
            } else if is_exact_extension(ext, "png") {
                "image/png"
            } else if is_exact_extension(ext, "json") {
                "application/json"
            } else if is_exact_extension(ext, "woff") || is_exact_extension(ext, "woff2") {
                "font/woff2"
            } else if is_exact_extension(ext, "ttf") {
                "font/ttf"
            } else {
                "application/octet-stream"
            }
        },
        None => "application/octet-stream",
    }
}

/// The response that serves `content` as the file `relative`. Content that
/// is handed in for a file above the root is not served: the answer is 404.
pub fn serve_local_file(relative: &str, content: Vec<u8>) -> (r: Response)
    ensures
        r@ == served_file(relative@, content@),
{
    if !is_below_root(relative) {
        return missing_local_file(relative);
    }
    let mut headers: Vec<Header> = Vec::new();
    headers.push(make_header("content-type", content_type_for(relative)));
    headers.push(make_header("Access-Control-Allow-Origin", "*"));
    headers.push(make_header("Content-Security-Policy", LOCAL_CONTENT_SECURITY_POLICY));
    let r = Response { status: 200, headers, body: content };
    assert(r@.headers =~= file_response(relative@, content@).headers);
    r
}

/// The 404 response for the file `relative` when it does not exist.
pub fn missing_local_file(relative: &str) -> (r: Response)
    ensures
        r@ == missing_file_response(relative@),
{
    let message = String::from_str("Local file not found: ").concat(relative);
    create_error_response(404, message.as_str())
}

/// The 404 response for a file that exists but could not be read.
pub fn unreadable_local_file() -> (r: Response)
    ensures
        r@ == unreadable_file_response(),
{
    create_error_response(404, "File not found locally")
}

/// Resolves a request path to a file below the installed-applications
/// root. A path whose name would point above the root resolves to nothing.
pub fn resolve_local_path(path: &str) -> (r: Option<String>)
    ensures
        r.deep_view() == local_relative_path(path@),
        r matches Some(relative) ==> stays_below_root(relative@),
{
    let named = name_local_path(path);
    if is_below_root(named.as_str()) {
        Some(named)
    } else {
        None
    }
}

} // verus!
