//! Routes and settings of the application's windows.
//!
//! Nothing here opens a window. Each function returns the [`WindowConfig`]
//! that the shell hands to the windowing toolkit.

use vstd::prelude::*;
use vstd::string::StringSliceAdditionalSpecFns;

verus! {

/// Width of a new window, in logical pixels.
pub const WINDOW_WIDTH: u32 = 800;

/// Height of a new window, in logical pixels.
pub const WINDOW_HEIGHT: u32 = 600;

/// Smallest width a window can be resized to, in logical pixels.
pub const WINDOW_MIN_WIDTH: u32 = 500;

/// Smallest height a window can be resized to, in logical pixels.
pub const WINDOW_MIN_HEIGHT: u32 = 400;

/// What a window is created with.
#[derive(Debug, Clone, PartialEq, Eq)]
pub struct WindowConfig {
    /// Label by which the toolkit tells the windows apart.
    pub label: String,
    /// Path of the page to load, relative to the application's root.
    pub url: String,
    /// Title shown in the title bar.
    pub title: String,
    pub width: u32,
    pub height: u32,
    pub min_width: u32,
    pub min_height: u32,
}

/// The title of every window.
pub open spec fn window_title() -> Seq<char> {
    "Pixi GUI"@
}

/// What every window label starts with.
pub open spec fn label_prefix() -> Seq<char> {
    "pixi-gui-window-"@
}

/// The label of the window whose unique part is `id`.
pub open spec fn window_label(id: Seq<char>) -> Seq<char> {
    label_prefix() + id
}

/// The number of `/` characters at the start of `s`.
pub open spec fn leading_slashes(s: Seq<char>) -> nat
    decreases s.len(),
{
    if s.len() > 0 && s[0] == '/' {
        1 + leading_slashes(s.skip(1))
    } else {
        0
    }
}

/// `s` without the `/` characters at its start.
pub open spec fn trim_leading_slashes(s: Seq<char>) -> Seq<char> {
    s.skip(leading_slashes(s) as int)
}

/// A lowercase hexadecimal digit.
pub open spec fn is_lower_hex(c: char) -> bool {
    ('0' <= c && c <= '9') || ('a' <= c && c <= 'f')
}

/// The hyphenated text form of a random (version 4) UUID: 36 characters,
/// `-` at the four group boundaries and lowercase hexadecimal digits
/// elsewhere, with the version and variant digits in their places.
pub open spec fn is_random_uuid(id: Seq<char>) -> bool {
    &&& id.len() == 36
    &&& forall|i: int|
        0 <= i < 36 ==> if i == 8 || i == 13 || i == 18 || i == 23 {
            #[trigger] id[i] == '-'
        } else {
            is_lower_hex(id[i])
        }
    &&& id[14] == '4'
    &&& (id[19] == '8' || id[19] == '9' || id[19] == 'a' || id[19] == 'b')
}

/// The uppercase hexadecimal digit of `n`, for `n` below 16.
pub open spec fn hex_upper(n: u8) -> char {
    if n < 10 {
        (48 + n) as char
    } else {
        (55 + n) as char
    }
}

/// An ASCII letter or digit.
pub open spec fn is_alphanumeric_byte(b: u8) -> bool {
    (0x30 <= b && b <= 0x39) || (0x41 <= b && b <= 0x5a) || (0x61 <= b && b <= 0x7a)
}

/// One byte, percent-encoded unless it is an ASCII letter or digit.
pub open spec fn percent_encoded_byte(b: u8) -> Seq<char> {
    if is_alphanumeric_byte(b) {
        seq![b as char]
    } else {
        seq!['%', hex_upper(b / 16), hex_upper(b % 16)]
    }
}

/// The bytes of a text with every byte but ASCII letters and digits
/// replaced by `%` and its two uppercase hexadecimal digits.
pub open spec fn percent_encoded(bytes: Seq<u8>) -> Seq<char>
    decreases bytes.len(),
{
    if bytes.len() == 0 {
        Seq::empty()
    } else {
        percent_encoded_byte(bytes[0]) + percent_encoded(bytes.skip(1))
    }
}

/// The route of the page that shows the workspace at `path`.
pub open spec fn workspace_route(path: Seq<char>) -> Seq<char> {
    "/workspace/"@ + percent_encoded(vstd::utf8::encode_utf8(path)) + "/"@
}

/// The settings shared by all windows, for the given label and page.
pub open spec fn window_config(label: Seq<char>, url: Seq<char>, c: WindowConfig) -> bool {
    &&& c.label@ == label
    &&& c.url@ == url
    &&& c.title@ == window_title()
    &&& c.width == WINDOW_WIDTH
    &&& c.height == WINDOW_HEIGHT
    &&& c.min_width == WINDOW_MIN_WIDTH
    &&& c.min_height == WINDOW_MIN_HEIGHT
}

/// Calls `percent_encoding::utf8_percent_encode` with the set
/// `NON_ALPHANUMERIC` and collects what it yields. Trusted: the result is
/// the UTF-8 encoding of `text` in which every byte that is not an ASCII
/// letter or digit stands as `%` and two uppercase hexadecimal digits, the
/// other bytes as themselves.
#[verifier::external_body]
fn percent_encode(text: &str) -> (out: String)
    ensures
        out@ == percent_encoded(text.spec_bytes()),
{
    percent_encoding::utf8_percent_encode(text, percent_encoding::NON_ALPHANUMERIC).to_string()
}

/// Calls `uuid::Uuid::new_v4` and formats the value as `Display` does.
/// Trusted: whatever the random bits, the text is the hyphenated lowercase
/// form of a version 4 UUID. The call panics if the operating system hands
/// out no random bytes.
#[verifier::external_body]
fn random_uuid() -> (id: String)
    ensures
        is_random_uuid(id@),
{
    uuid::Uuid::new_v4().to_string()
}

/// Counts the `/` characters at the start of `path`.
fn count_leading_slashes(path: &str) -> (n: usize)
    ensures
        n == leading_slashes(path@),
        n <= path@.len(),
{
    let len: usize = path.unicode_len();
    let mut i: usize = 0;
    proof {
        assert(path@.skip(0) =~= path@);
    }
    while i < len && path.get_char(i) == '/'
        invariant
            len == path@.len(),
            i <= len,
            leading_slashes(path@) == i + leading_slashes(path@.skip(i as int)),
        decreases len - i,
    {
        proof {
            let rest = path@.skip(i as int);
            assert(rest[0] == path@[i as int]);
            assert(rest.skip(1) =~= path@.skip(i + 1));
        }
        i = i + 1;
    }
    i
}

/// The window that shows the page at `path` under the label made of `id`.
///
/// Leading `/` characters of `path` are dropped: the page is addressed
/// relative to the application's root.
pub fn create_window_labelled(path: &str, id: &str) -> (c: WindowConfig)
    ensures
        window_config(window_label(id@), trim_leading_slashes(path@), c),
{
    let skip: usize = count_leading_slashes(path);
    let url = String::from_str(path.substring_char(skip, path.unicode_len()));
    let mut label = String::from_str("pixi-gui-window-");
    label.append(id);
    proof {
        assert(path@.subrange(skip as int, path@.len() as int) =~= path@.skip(skip as int));
    }
    WindowConfig {
        label,
        url,
        title: String::from_str("Pixi GUI"),
        width: WINDOW_WIDTH,
        height: WINDOW_HEIGHT,
        min_width: WINDOW_MIN_WIDTH,
        min_height: WINDOW_MIN_HEIGHT,
    }
}

/// The window that shows the page at `path`, under a fresh label.
///
/// The label is the common prefix followed by a random UUID, so that two
/// windows do not share one.
pub fn create_window(path: &str) -> (c: WindowConfig)
    ensures
        exists|id: Seq<char>|
            is_random_uuid(id) && #[trigger] window_config(
                window_label(id),
                trim_leading_slashes(path@),
                c,
            ),
{
    let id = random_uuid();
    create_window_labelled(path, id.as_str())
}

/// The window that opens on the start page.
pub fn create_default_window() -> (c: WindowConfig)
    ensures
        exists|id: Seq<char>|
            is_random_uuid(id) && #[trigger] window_config(window_label(id), Seq::empty(), c),
{
    let c = create_window("/");
    proof {
        reveal_strlit("/");
        lemma_single_slash("/"@);
    }
    c
}

/// The window that opens on the workspace found at `file`.
///
/// The page's route holds the path percent-encoded, so that no character of
/// the path is taken for a part of the route.
pub fn create_workspace_window(file: &str) -> (c: WindowConfig)
    ensures
        exists|id: Seq<char>|
            is_random_uuid(id) && #[trigger] window_config(
                window_label(id),
                trim_leading_slashes(workspace_route(file@)),
                c,
            ),
        c.url@ == "workspace/"@ + percent_encoded(file.spec_bytes()) + "/"@,
{
    let encoded = percent_encode(file);
    let mut route = String::from_str("/workspace/");
    route.append(encoded.as_str());
    route.append("/");
    let c = create_window(route.as_str());
    proof {
        lemma_workspace_route_trimmed(file@);
    }
    c
}

/// A lone `/` trims to the empty route.
proof fn lemma_single_slash(s: Seq<char>)
    requires
        s.len() == 1,
        s[0] == '/',
    ensures
        trim_leading_slashes(s) == Seq::<char>::empty(),
{
    assert(leading_slashes(s.skip(1)) == 0);
    assert(leading_slashes(s) == 1);
    assert(s.skip(1) =~= Seq::<char>::empty());
}

/// Trimming a workspace route drops exactly its first character.
pub proof fn lemma_workspace_route_trimmed(path: Seq<char>)
    ensures
        trim_leading_slashes(workspace_route(path)) == "workspace/"@ + percent_encoded(
            vstd::utf8::encode_utf8(path),
        ) + "/"@,
{
    reveal_strlit("/workspace/");
    reveal_strlit("workspace/");
    reveal_strlit("/");
    let route = workspace_route(path);
    let rest = route.skip(1);
    assert(route[0] == '/');
    assert(rest[0] == 'w');
    assert(leading_slashes(rest) == 0);
    assert(leading_slashes(route) == 1);
    assert(rest =~= "workspace/"@ + percent_encoded(vstd::utf8::encode_utf8(path)) + "/"@);
}

/// A character that stands for itself in a route: an ASCII letter or digit,
/// or the `%` that starts an encoded byte.
pub open spec fn is_route_safe(c: char) -> bool {
    ('0' <= c && c <= '9') || ('A' <= c && c <= 'Z') || ('a' <= c && c <= 'z') || c == '%'
}

/// Percent-encoded text holds letters, digits and `%` only: no `/` that
/// would split the route, whatever the path held.
pub proof fn lemma_percent_encoded_safe(bytes: Seq<u8>)
    ensures
        forall|i: int|
            0 <= i < percent_encoded(bytes).len() ==> is_route_safe(
                #[trigger] percent_encoded(bytes)[i],
            ),
    decreases bytes.len(),
{
    if bytes.len() > 0 {
        lemma_percent_encoded_safe(bytes.skip(1));
        let first = percent_encoded_byte(bytes[0]);
        let rest = percent_encoded(bytes.skip(1));
        assert forall|i: int| 0 <= i < first.len() implies is_route_safe(#[trigger] first[i]) by {
            let b = bytes[0];
            assert(b / 16 < 16 && b % 16 < 16);
        }
        assert forall|i: int| 0 <= i < percent_encoded(bytes).len() implies is_route_safe(
            #[trigger] percent_encoded(bytes)[i],
        ) by {
            if i >= first.len() {
                assert(percent_encoded(bytes)[i] == rest[i - first.len()]);
            } else {
                assert(percent_encoded(bytes)[i] == first[i]);
            }
        }
    }
}

} // verus!
