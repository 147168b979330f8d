//! Preview transport: browser-friendly formats get a direct asset
//! URL (with the platform-specific path mangling the webview needs);
//! everything else is shipped as a base64 data URL built from the
//! JPEG bytes the raster engine produced.

use vstd::prelude::*;
use vstd::string::StrSliceExecFns;
use vstd::string::StringExecFns;
use base64::Engine;

verus! {

/// What the standard base64 encoding of a byte sequence is: the
/// exact text is the outside encoder's business, named here so
/// contracts can speak about it.
pub uninterp spec fn base64_of(s: Seq<u8>) -> Seq<char>;

/// Relies on base64's `Engine::encode` with the standard padded
/// alphabet: the result depends on the input bytes alone, and is
/// four characters for every three input bytes, rounded up. The
/// input bound keeps the encoder's buffer-size arithmetic from
/// overflowing on any machine.
#[verifier::external_body]
fn b64_encode(bytes: &[u8]) -> (r: String)
    requires
        bytes@.len() < 0x4000_0000,
    ensures
        r@ == base64_of(bytes@),
        r@.len() == 4 * ((bytes@.len() + 2) / 3),
{
    base64::engine::general_purpose::STANDARD.encode(bytes)
}

/// Every backslash turned into a forward slash.
pub open spec fn slashes_forward(s: Seq<char>) -> Seq<char> {
    s.map_values(|c: char| if c == '\\' { '/' } else { c })
}

/// The first colon percent-encoded as "%3A", scanning from `i`.
pub open spec fn encode_first_colon(s: Seq<char>, i: int) -> Seq<char>
    decreases s.len() - i,
{
    if i < 0 || i >= s.len() {
        Seq::empty()
    } else if s[i] == ':' {
        seq!['%', '3', 'A'] + s.skip(i + 1)
    } else {
        seq![s[i]] + encode_first_colon(s, i + 1)
    }
}

/// The asset URL a non-Windows webview loads a plain image from.
pub open spec fn spec_asset_url(path: Seq<char>) -> Seq<char> {
    "asset://localhost/"@ + path
}

/// The asset URL a Windows webview loads a plain image from:
/// backslashes become slashes, the drive colon is percent-encoded,
/// and the result is served over the local asset host.
pub open spec fn spec_asset_url_windows(path: Seq<char>) -> Seq<char> {
    "http://asset.localhost/"@ + encode_first_colon(slashes_forward(path), 0)
}

/// Build the direct asset URL for a browser-friendly image.
pub fn asset_url(path: &str) -> (r: String)
    ensures
        r@ == spec_asset_url(path@),
{
    let mut s = String::new();
    s.append("asset://localhost/");
    s.append(path);
    proof {
        assert(s@ =~= spec_asset_url(path@));
    }
    s
}

/// Build the Windows asset URL for a browser-friendly image.
pub fn asset_url_windows(path: &str) -> (r: String)
    ensures
        r@ == spec_asset_url_windows(path@),
{
    let n = path.unicode_len();
    let mut fixed = String::new();
    proof {
        assert(fixed@ =~= slashes_forward(path@).take(0));
    }
    let mut i: usize = 0;
    while i < n
        invariant
            i <= n,
            n == path@.len(),
            fixed@ == slashes_forward(path@).take(i as int),
        decreases n - i,
    {
        let c = path.get_char(i);
        if c == '\\' {
            fixed.append("/");
        } else {
            let piece = path.substring_char(i, i + 1);
            fixed.append(piece);
        }
        proof {
            reveal_strlit("/");
            assert(fixed@ =~= slashes_forward(path@).take(i + 1));
        }
        i = i + 1;
    }
    proof {
        assert(slashes_forward(path@).take(n as int) =~= slashes_forward(path@));
    }

    let mut s = String::new();
    s.append("http://asset.localhost/");
    let fs = fixed.as_str();
    let m = fs.unicode_len();
    proof {
        assert(s@ =~= "http://asset.localhost/"@ + fs@.take(0));
        assert(fs@.take(0) + encode_first_colon(fs@, 0) =~= encode_first_colon(fs@, 0));
    }
    let mut j: usize = 0;
    let mut replaced = false;
    while j < m && !replaced
        invariant
            j <= m,
            m == fs@.len(),
            fs@ == slashes_forward(path@),
            !replaced ==> s@ == "http://asset.localhost/"@ + fs@.take(j as int) && encode_first_colon(
                fs@,
                0,
            ) == fs@.take(j as int) + encode_first_colon(fs@, j as int),
            replaced ==> s@ == "http://asset.localhost/"@ + encode_first_colon(fs@, 0),
        decreases m - j,
    {
        let c = fs.get_char(j);
        if c == ':' {
            s.append("%3A");
            let tail = fs.substring_char(j + 1, m);
            s.append(tail);
            proof {
                reveal_strlit("%3A");
                assert(encode_first_colon(fs@, j as int) =~= seq!['%', '3', 'A'] + fs@.skip(
                    j + 1,
                ));
                assert(fs@.subrange(j + 1, m as int) =~= fs@.skip(j + 1));
                assert(s@ =~= "http://asset.localhost/"@ + encode_first_colon(fs@, 0));
            }
            replaced = true;
            j = m;
        } else {
            let piece = fs.substring_char(j, j + 1);
            s.append(piece);
            proof {
                assert(encode_first_colon(fs@, j as int) =~= seq![fs@[j as int]]
                    + encode_first_colon(fs@, j + 1));
                assert(fs@.take(j as int) + encode_first_colon(fs@, j as int) =~= fs@.take(j + 1)
                    + encode_first_colon(fs@, j + 1));
                assert(s@ =~= "http://asset.localhost/"@ + fs@.take(j + 1));
            }
            j = j + 1;
        }
    }
    proof {
        if !replaced {
            assert(encode_first_colon(fs@, j as int) =~= Seq::<char>::empty());
            assert(fs@.take(j as int) + encode_first_colon(fs@, j as int) =~= fs@.take(j as int));
            assert(s@ =~= "http://asset.localhost/"@ + encode_first_colon(fs@, 0));
        }
    }
    s
}

/// The data URL built from engine-produced JPEG bytes.
pub open spec fn spec_data_url(jpeg: Seq<u8>) -> Seq<char> {
    "data:image/jpeg;base64,"@ + base64_of(jpeg)
}

/// Wrap raster-engine JPEG output as an inline data URL.
pub fn thumbnail_data_url(jpeg: &[u8]) -> (r: String)
    requires
        jpeg@.len() < 0x4000_0000,
    ensures
        r@ == spec_data_url(jpeg@),
{
    let mut s = String::new();
    s.append("data:image/jpeg;base64,");
    let enc = b64_encode(jpeg);
    s.append(enc.as_str());
    proof {
        assert(s@ =~= spec_data_url(jpeg@));
    }
    s
}

} // verus!
