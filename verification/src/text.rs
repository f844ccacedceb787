//! Names and addresses: the asset's file name, the decimal form of an id, and
//! the URLs of the release API.

use vstd::prelude::*;
use vstd::string::*;

verus! {

/// First part of every address of the release API.
pub open spec fn api_root() -> Seq<char> {
    "https://api.github.com/repos/"@
}

/// The character that stands for a digit value below ten.
pub open spec fn digit_char(d: nat) -> char {
    if d == 0 {
        '0'
    } else if d == 1 {
        '1'
    } else if d == 2 {
        '2'
    } else if d == 3 {
        '3'
    } else if d == 4 {
        '4'
    } else if d == 5 {
        '5'
    } else if d == 6 {
        '6'
    } else if d == 7 {
        '7'
    } else if d == 8 {
        '8'
    } else {
        '9'
    }
}

/// The decimal digits of a number, most significant first, without leading
/// zeros.
pub open spec fn decimal(n: nat) -> Seq<char>
    decreases n,
{
    if n < 10 {
        seq![digit_char(n)]
    } else {
        decimal(n / 10) + seq![digit_char(n % 10)]
    }
}

/// The name under which an artifact is attached to the release.
pub open spec fn asset_name(stem: Seq<char>, host: Seq<char>, suffix: Seq<char>) -> Seq<char> {
    stem + "-"@ + host + suffix
}

/// The address of a repository's list of releases.
pub open spec fn releases_address(repo: Seq<char>) -> Seq<char> {
    api_root() + repo + "/releases"@
}

/// The address of one release.
pub open spec fn release_address(repo: Seq<char>, id: u64) -> Seq<char> {
    api_root() + repo + "/releases/"@ + decimal(id as nat)
}

/// The address of one asset.
pub open spec fn asset_address(repo: Seq<char>, id: u64) -> Seq<char> {
    api_root() + repo + "/releases/assets/"@ + decimal(id as nat)
}

/// Whether `i` is the place of the first `{` of `url`.
pub open spec fn is_template_start(url: Seq<char>, i: int) -> bool {
    &&& 0 <= i < url.len()
    &&& url[i] == '{'
    &&& forall|j: int| 0 <= j < i ==> url[j] != '{'
}

/// The place of the first `{` of `url`, where it has one.
pub open spec fn template_start(url: Seq<char>) -> Option<int> {
    if exists|i: int| is_template_start(url, i) {
        Some(choose|i: int| is_template_start(url, i))
    } else {
        None
    }
}

/// The address to which an artifact is sent: the templated upload URL up to
/// its first `{`, then the query that names the file. A URL without `{` has
/// none.
pub open spec fn upload_address(url: Seq<char>, filename: Seq<char>) -> Option<Seq<char>> {
    match template_start(url) {
        Some(i) => Some(url.subrange(0, i) + "?name="@ + filename),
        None => None,
    }
}

/// Two places that both are the first `{` are one place.
pub proof fn template_start_unique(url: Seq<char>, i: int, k: int)
    requires
        is_template_start(url, i),
        is_template_start(url, k),
    ensures
        i == k,
{
    if i < k {
        assert(url[i] != '{');
    } else if k < i {
        assert(url[k] != '{');
    }
}

/// Whether a character is white space: one of the characters that Unicode
/// gives the property White_Space.
pub open spec fn is_space(c: char) -> bool {
    let n = c as u32;
    ||| 0x09 <= n <= 0x0d
    ||| n == 0x20
    ||| n == 0x85
    ||| n == 0xa0
    ||| n == 0x1680
    ||| 0x2000 <= n <= 0x200a
    ||| n == 0x2028
    ||| n == 0x2029
    ||| n == 0x202f
    ||| n == 0x205f
    ||| n == 0x3000
}

/// A text without the white space at its two ends.
pub open spec fn trimmed(text: Seq<char>) -> Seq<char>
    decreases text.len(),
{
    if text.len() == 0 {
        text
    } else if is_space(text.first()) {
        trimmed(text.drop_first())
    } else if is_space(text.last()) {
        trimmed(text.drop_last())
    } else {
        text
    }
}

/// Whether a character is a hexadecimal digit.
pub open spec fn is_hex_digit(c: char) -> bool {
    ('0' <= c <= '9') || ('a' <= c <= 'f') || ('A' <= c <= 'F')
}

/// Whether a text is made of hexadecimal digits, at least one.
pub open spec fn is_hex_text(text: Seq<char>) -> bool {
    text.len() > 0 && forall|i: int| 0 <= i < text.len() ==> is_hex_digit(#[trigger] text[i])
}

/// A text that neither starts nor ends with white space is left as it is.
pub proof fn trimmed_keeps_clean_text(text: Seq<char>)
    requires
        text.len() > 0 ==> !is_space(text.first()) && !is_space(text.last()),
    ensures
        trimmed(text) == text,
{
}

/// A commit hash in hexadecimal is left as it is.
pub proof fn trimmed_keeps_hex_text(text: Seq<char>)
    requires
        is_hex_text(text),
    ensures
        trimmed(text) == text,
{
    assert(is_hex_digit(text[0]));
    assert(is_hex_digit(text[text.len() - 1]));
}

/// A commit hash in hexadecimal with white space behind it is left without
/// that white space.
pub proof fn trimmed_drops_trailing_space(text: Seq<char>, space: Seq<char>)
    requires
        is_hex_text(text),
        forall|i: int| 0 <= i < space.len() ==> is_space(#[trigger] space[i]),
    ensures
        trimmed(text + space) == text,
    decreases space.len(),
{
    if space.len() == 0 {
        assert(text + space =~= text);
        trimmed_keeps_hex_text(text);
    } else {
        let all = text + space;
        assert(all.first() == text[0]);
        assert(is_hex_digit(text[0]));
        assert(all.last() == space[space.len() - 1]);
        assert(is_space(space[space.len() - 1]));
        assert(all.drop_last() =~= text + space.drop_last());
        assert forall|i: int| 0 <= i < space.drop_last().len() implies is_space(
            #[trigger] space.drop_last()[i],
        ) by {
            assert(space.drop_last()[i] == space[i]);
        }
        trimmed_drops_trailing_space(text, space.drop_last());
    }
}

/// Whether a character is white space.
pub fn is_whitespace(c: char) -> (yes: bool)
    ensures
        yes == is_space(c),
{
    let n = c as u32;
    (0x09 <= n && n <= 0x0d) || n == 0x20 || n == 0x85 || n == 0xa0 || n == 0x1680 || (0x2000 <= n
        && n <= 0x200a) || n == 0x2028 || n == 0x2029 || n == 0x202f || n == 0x205f || n == 0x3000
}

/// Takes the white space off the two ends of a text.
pub fn trim(text: &str) -> (rest: String)
    ensures
        rest@ == trimmed(text@),
{
    let n = text.unicode_len();
    let mut start: usize = 0;
    let mut end: usize = n;
    assert(text@.subrange(0, n as int) =~= text@);
    while start < end && is_whitespace(text.get_char(start))
        invariant
            n == text@.len(),
            start <= end <= n,
            end == n,
            trimmed(text@) == trimmed(text@.subrange(start as int, end as int)),
        decreases end - start,
    {
        assert(text@.subrange(start as int, end as int).drop_first() =~= text@.subrange(
            start + 1,
            end as int,
        ));
        start += 1;
    }
    while start < end && is_whitespace(text.get_char(end - 1))
        invariant
            n == text@.len(),
            start <= end <= n,
            start < end ==> !is_space(text@[start as int]),
            trimmed(text@) == trimmed(text@.subrange(start as int, end as int)),
        decreases end - start,
    {
        assert(text@.subrange(start as int, end as int).drop_last() =~= text@.subrange(
            start as int,
            end - 1,
        ));
        end -= 1;
    }
    String::from_str(text.substring_char(start, end))
}

fn digit_text(d: u64) -> (r: &'static str)
    requires
        d < 10,
    ensures
        r@ == seq![digit_char(d as nat)],
{
    proof {
        reveal_strlit("0");
        reveal_strlit("1");
        reveal_strlit("2");
        reveal_strlit("3");
        reveal_strlit("4");
        reveal_strlit("5");
        reveal_strlit("6");
        reveal_strlit("7");
        reveal_strlit("8");
        reveal_strlit("9");
    }
    let r = if d == 0 {
        "0"
    } else if d == 1 {
        "1"
    } else if d == 2 {
        "2"
    } else if d == 3 {
        "3"
    } else if d == 4 {
        "4"
    } else if d == 5 {
        "5"
    } else if d == 6 {
        "6"
    } else if d == 7 {
        "7"
    } else if d == 8 {
        "8"
    } else {
        "9"
    };
    assert(r@ =~= seq![digit_char(d as nat)]);
    r
}

/// Writes a number in decimal.
pub fn decimal_text(n: u64) -> (r: String)
    ensures
        r@ == decimal(n as nat),
    decreases n,
{
    let last = digit_text(n % 10);
    if n < 10 {
        String::from_str(last)
    } else {
        decimal_text(n / 10).concat(last)
    }
}

/// Derives the asset's name from the artifact's file stem, the host triple
/// and the platform's executable suffix.
pub fn asset_filename(stem: &str, host: &str, suffix: &str) -> (name: String)
    ensures
        name@ == asset_name(stem@, host@, suffix@),
{
    String::from_str(stem).concat("-").concat(host).concat(suffix)
}

/// The address of the list of releases of `repo`.
pub fn releases_url(repo: &str) -> (url: String)
    ensures
        url@ == releases_address(repo@),
{
    String::from_str("https://api.github.com/repos/").concat(repo).concat("/releases")
}

/// The address of the release `id` of `repo`.
pub fn release_url(repo: &str, id: u64) -> (url: String)
    ensures
        url@ == release_address(repo@, id),
{
    let number = decimal_text(id);
    String::from_str("https://api.github.com/repos/").concat(repo).concat("/releases/").concat(
        number.as_str(),
    )
}

/// The address of the asset `id` of `repo`.
pub fn asset_url(repo: &str, id: u64) -> (url: String)
    ensures
        url@ == asset_address(repo@, id),
{
    let number = decimal_text(id);
    String::from_str("https://api.github.com/repos/").concat(repo).concat(
        "/releases/assets/",
    ).concat(number.as_str())
}

/// Finds the first `{` of a templated URL.
pub fn find_template_start(url: &str) -> (at: Option<usize>)
    ensures
        match at {
            Some(i) => template_start(url@) == Some(i as int),
            None => template_start(url@).is_none(),
        },
{
    let n = url.unicode_len();
    let mut i: usize = 0;
    while i < n
        invariant
            n == url@.len(),
            i <= n,
            forall|j: int| 0 <= j < i ==> url@[j] != '{',
        decreases n - i,
    {
        if url.get_char(i) == '{' {
            proof {
                assert(is_template_start(url@, i as int));
                let k = choose|k: int| is_template_start(url@, k);
                template_start_unique(url@, i as int, k);
            }
            return Some(i);
        }
        i += 1;
    }
    assert forall|k: int| !is_template_start(url@, k) by {
        if 0 <= k < url@.len() {
            assert(url@[k] != '{');
        }
    }
    None
}

/// Resolves the address to which the artifact named `filename` is sent, from
/// the release's templated upload URL. There is none where the URL holds no
/// `{`.
pub fn upload_endpoint(upload_url: &str, filename: &str) -> (url: Option<String>)
    ensures
        match url {
            Some(u) => upload_address(upload_url@, filename@) == Some(u@),
            None => upload_address(upload_url@, filename@).is_none(),
        },
{
    match find_template_start(upload_url) {
        Some(i) => {
            let base = upload_url.substring_char(0, i);
            Some(String::from_str(base).concat("?name=").concat(filename))
        },
        None => None,
    }
}

} // verus!
