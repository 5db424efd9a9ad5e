//! Downloading a release: its URLs, the published checksum, and the checks a
//! downloaded installer must pass before it is installed.

use vstd::prelude::*;

use sha2::Digest;

use crate::text::{
    chars_of, decimal, is_white_space, is_whitespace, push_char, push_decimal, trim_start,
};
use crate::update::UpdateError;

verus! {

/// Where release assets are downloaded from.
pub open spec fn releases_url() -> Seq<char> {
    "https://github.com/3xian/PinkDown/releases/download"@
}

/// The Windows installer's asset name.
pub open spec fn windows_release_asset() -> Seq<char> {
    "pinkdown-windows-x64-setup.exe"@
}

/// The download URLs of the Windows installer of release `tag` and of its
/// SHA-256 checksum file.
pub fn release_urls(tag: &str) -> (r: (String, String))
    ensures
        r.0@ == releases_url() + "/"@ + tag@ + "/"@ + windows_release_asset(),
        r.1@ == r.0@ + ".sha256"@,
{
    let mut asset = String::from_str("https://github.com/3xian/PinkDown/releases/download");
    asset.append("/");
    asset.append(tag);
    asset.append("/");
    asset.append("pinkdown-windows-x64-setup.exe");
    let mut checksum = asset.clone();
    checksum.append(".sha256");
    (asset, checksum)
}

/// The file name, in the temporary directory, that the installer of release
/// `tag` is saved under by process `process_id`.
pub fn download_file_name(tag: &str, process_id: u32) -> (r: String)
    ensures
        r@ == "pinkdown-"@ + tag@ + "-"@ + decimal(process_id as nat) + "-setup.exe"@,
{
    let mut name = String::from_str("pinkdown-");
    name.append(tag);
    name.append("-");
    push_decimal(&mut name, process_id as u64);
    name.append("-setup.exe");
    name
}

/// The leading run of non-whitespace characters of `s`.
pub open spec fn take_word(s: Seq<char>) -> Seq<char>
    decreases s.len(),
{
    if s.len() > 0 && !is_white_space(s[0]) {
        seq![s[0]] + take_word(s.drop_first())
    } else {
        Seq::empty()
    }
}

/// The first whitespace-separated word of `s` (empty when there is none).
pub open spec fn first_word(s: Seq<char>) -> Seq<char> {
    take_word(trim_start(s))
}

/// Whether `c` is an ASCII hexadecimal digit.
pub open spec fn is_hex_digit(c: char) -> bool {
    ('0' <= c && c <= '9') || ('a' <= c && c <= 'f') || ('A' <= c && c <= 'F')
}

/// A hexadecimal digit in lowercase (what `to_ascii_lowercase` makes of it).
pub open spec fn hex_lower(c: char) -> char {
    if c == 'A' {
        'a'
    } else if c == 'B' {
        'b'
    } else if c == 'C' {
        'c'
    } else if c == 'D' {
        'd'
    } else if c == 'E' {
        'e'
    } else if c == 'F' {
        'f'
    } else {
        c
    }
}

fn to_hex_lower(c: char) -> (r: char)
    ensures
        r == hex_lower(c),
{
    if c == 'A' {
        'a'
    } else if c == 'B' {
        'b'
    } else if c == 'C' {
        'c'
    } else if c == 'D' {
        'd'
    } else if c == 'E' {
        'e'
    } else if c == 'F' {
        'f'
    } else {
        c
    }
}

/// Whether `word` is a SHA-256 checksum: 64 hexadecimal digits.
pub open spec fn is_checksum(word: Seq<char>) -> bool {
    word.len() == 64 && forall|k: int| 0 <= k < word.len() ==> is_hex_digit(#[trigger] word[k])
}

/// The expected checksum read from a checksum file (`sum`, as
/// `expected_checksum` answers it) is in lowercase: it has 64 characters,
/// each a decimal digit or a letter from `a` to `f`, and each is the first
/// word's character with a capital letter made small (moved down by the
/// ASCII case distance) and any other character kept.
pub proof fn expected_checksum_is_lowercase(text: Seq<char>, sum: Seq<char>)
    requires
        is_checksum(first_word(text)),
        sum == first_word(text).map_values(|c: char| hex_lower(c)),
    ensures
        sum.len() == 64,
        forall|k: int|
            0 <= k < 64 ==> ('0' <= #[trigger] sum[k] && sum[k] <= '9') || ('a' <= sum[k] && sum[k]
                <= 'f'),
        forall|k: int|
            0 <= k < 64 ==> if 'A' <= first_word(text)[k] && first_word(text)[k] <= 'Z' {
                #[trigger] sum[k] as u32 == first_word(text)[k] as u32 + 32
            } else {
                sum[k] == first_word(text)[k]
            },
{
    let word = first_word(text);
    assert forall|k: int| 0 <= k < 64 implies {
        &&& ('0' <= #[trigger] sum[k] && sum[k] <= '9') || ('a' <= sum[k] && sum[k] <= 'f')
        &&& if 'A' <= word[k] && word[k] <= 'Z' {
            sum[k] as u32 == word[k] as u32 + 32
        } else {
            sum[k] == word[k]
        }
    } by {
        assert(is_hex_digit(word[k]));
        assert(sum[k] == hex_lower(word[k]));
    }
}

/// The message when a release's checksum file holds no valid checksum.
pub open spec fn invalid_checksum_message() -> Seq<char> {
    "Release checksum is missing or invalid"@
}

proof fn lemma_take_word_at(s: Seq<char>, j: int)
    requires
        0 <= j <= s.len(),
        forall|k: int| 0 <= k < j ==> !is_white_space(#[trigger] s[k]),
        j == s.len() || is_white_space(s[j]),
    ensures
        take_word(s) == s.subrange(0, j),
    decreases j,
{
    if j == 0 {
        assert(s.subrange(0, 0) =~= Seq::<char>::empty());
    } else {
        let t = s.drop_first();
        assert forall|k: int| 0 <= k < j - 1 implies !is_white_space(#[trigger] t[k]) by {
            assert(t[k] == s[k + 1]);
        }
        assert(!is_white_space(s[0]));
        lemma_take_word_at(t, j - 1);
        assert(seq![s[0]] + t.subrange(0, j - 1) =~= s.subrange(0, j));
    }
}

/// The expected checksum of a release, read from the text of its checksum
/// file: its first whitespace-separated word, which must be 64 hexadecimal
/// digits, in lowercase.
pub fn expected_checksum(text: &str) -> (r: Result<String, UpdateError>)
    ensures
        r is Ok <==> is_checksum(first_word(text@)),
        r matches Ok(sum) ==> sum@ == first_word(text@).map_values(|c: char| hex_lower(c)),
        r matches Err(e) ==> e@ == invalid_checksum_message(),
{
    let cs = chars_of(text);
    let mut i: usize = 0;
    while i < cs.len() && is_whitespace(cs[i])
        invariant
            i <= cs@.len(),
            forall|k: int| 0 <= k < i ==> is_white_space(#[trigger] cs@[k]),
        decreases cs@.len() - i,
    {
        i = i + 1;
    }
    let mut j: usize = i;
    while j < cs.len() && !is_whitespace(cs[j])
        invariant
            i <= j <= cs@.len(),
            forall|k: int| i <= k < j ==> !is_white_space(#[trigger] cs@[k]),
        decreases cs@.len() - j,
    {
        j = j + 1;
    }
    let ghost rest = cs@.subrange(i as int, cs@.len() as int);
    let ghost word = cs@.subrange(i as int, j as int);
    proof {
        crate::text::lemma_trim_start_at(cs@, i as int);
        assert forall|k: int| 0 <= k < j - i implies !is_white_space(#[trigger] rest[k]) by {
            assert(rest[k] == cs@[k + i]);
        }
        if j < cs@.len() {
            assert(rest[j - i] == cs@[j as int]);
        }
        lemma_take_word_at(rest, (j - i) as int);
        assert(rest.subrange(0, (j - i) as int) =~= word);
    }
    if j - i != 64 {
        return Err(UpdateError::new(String::from_str("Release checksum is missing or invalid")));
    }
    let mut out = String::new();
    let mut k: usize = i;
    while k < j
        invariant
            i <= k <= j <= cs@.len(),
            j - i == 64,
            word == cs@.subrange(i as int, j as int),
            first_word(text@) == word,
            forall|m: int| i <= m < k ==> is_hex_digit(#[trigger] cs@[m]),
            out@ == cs@.subrange(i as int, k as int).map_values(|c: char| hex_lower(c)),
        decreases j - k,
    {
        let c = cs[k];
        let hex = ('0' <= c && c <= '9') || ('a' <= c && c <= 'f') || ('A' <= c && c <= 'F');
        if !hex {
            assert(word[k - i] == c);
            assert(!is_hex_digit(word[k - i]));
            return Err(UpdateError::new(String::from_str("Release checksum is missing or invalid")));
        }
        push_char(&mut out, to_hex_lower(c));
        k = k + 1;
        assert(out@ =~= cs@.subrange(i as int, k as int).map_values(|c: char| hex_lower(c)));
    }
    assert forall|m: int| 0 <= m < word.len() implies is_hex_digit(#[trigger] word[m]) by {
        assert(word[m] == cs@[m + i]);
    }
    Ok(out)
}

} // verus!

verus! {

/// The SHA-256 digest of `data`, as `sha2::Sha256` computes it.
pub uninterp spec fn sha256(data: Seq<u8>) -> Seq<u8>;

/// Hashes `data` with `sha2::Sha256::digest`. The contract claims the digest
/// is `sha256` of the bytes and is 32 bytes long.
#[verifier::external_body]
fn sha256_digest(data: &[u8]) -> (r: Vec<u8>)
    ensures
        r@ == sha256(data@),
        r@.len() == 32,
{
    sha2::Sha256::digest(data).to_vec()
}

/// The lowercase hexadecimal digit for `d`, which is below sixteen.
pub open spec fn hex_digit(d: nat) -> char {
    if d < 10 {
        crate::text::digit_char(d)
    } else if d == 10 {
        'a'
    } else if d == 11 {
        'b'
    } else if d == 12 {
        'c'
    } else if d == 13 {
        'd'
    } else if d == 14 {
        'e'
    } else {
        'f'
    }
}

/// `bytes` in lowercase hexadecimal, two digits per byte (`{:x}`).
pub open spec fn lower_hex(bytes: Seq<u8>) -> Seq<char>
    decreases bytes.len(),
{
    if bytes.len() == 0 {
        Seq::empty()
    } else {
        lower_hex(bytes.drop_last()) + seq![
            hex_digit((bytes.last() / 16) as nat),
            hex_digit((bytes.last() % 16) as nat),
        ]
    }
}

fn hex_char(d: u8) -> (c: char)
    requires
        d < 16,
    ensures
        c == hex_digit(d as nat),
{
    if d < 10 {
        crate::text::digit_of(d as u64)
    } else if d == 10 {
        'a'
    } else if d == 11 {
        'b'
    } else if d == 12 {
        'c'
    } else if d == 13 {
        'd'
    } else if d == 14 {
        'e'
    } else {
        'f'
    }
}

/// Lowercase hexadecimal spends two digits on every byte.
pub proof fn lower_hex_length(bytes: Seq<u8>)
    ensures
        lower_hex(bytes).len() == 2 * bytes.len(),
    decreases bytes.len(),
{
    if bytes.len() > 0 {
        lower_hex_length(bytes.drop_last());
    }
}

/// Each hexadecimal digit stands for its value: digits below ten are the
/// decimal digits, and ten to fifteen are `a` to `f`, in ASCII order.
pub proof fn hex_digit_has_its_value(d: nat)
    requires
        d < 16,
    ensures
        d < 10 ==> hex_digit(d) as u32 == '0' as u32 + d,
        10 <= d ==> hex_digit(d) as u32 == 'a' as u32 + (d - 10),
{
}

/// The digest is written byte by byte, high digit first: the two digits at
/// positions `2 * j` and `2 * j + 1` stand for byte `j`, so every character
/// is a decimal digit or a letter from `a` to `f`.
pub proof fn lower_hex_digits(bytes: Seq<u8>)
    ensures
        lower_hex(bytes).len() == 2 * bytes.len(),
        forall|j: int|
            0 <= j < bytes.len() ==> lower_hex(bytes)[2 * j] == hex_digit((#[trigger] bytes[j] / 16) as nat)
                && lower_hex(bytes)[2 * j + 1] == hex_digit((bytes[j] % 16) as nat),
        forall|k: int|
            0 <= k < lower_hex(bytes).len() ==> ('0' <= #[trigger] lower_hex(bytes)[k] && lower_hex(
                bytes,
            )[k] <= '9') || ('a' <= lower_hex(bytes)[k] && lower_hex(bytes)[k] <= 'f'),
    decreases bytes.len(),
{
    if bytes.len() > 0 {
        let rest = bytes.drop_last();
        lower_hex_digits(rest);
        let h = lower_hex(bytes);
        assert forall|j: int| 0 <= j < bytes.len() implies h[2 * j] == hex_digit(
            (#[trigger] bytes[j] / 16) as nat,
        ) && h[2 * j + 1] == hex_digit((bytes[j] % 16) as nat) by {
            if j < rest.len() {
                assert(rest[j] == bytes[j]);
            }
        }
    }
}

/// `bytes` written as lowercase hexadecimal.
pub fn to_lower_hex(bytes: &[u8]) -> (r: String)
    ensures
        r@ == lower_hex(bytes@),
        r@.len() == 2 * bytes@.len(),
{
    let mut out = String::new();
    let mut i: usize = 0;
    while i < bytes.len()
        invariant
            i <= bytes@.len(),
            out@ == lower_hex(bytes@.take(i as int)),
        decreases bytes@.len() - i,
    {
        let b = bytes[i];
        proof {
            assert(bytes@.take(i + 1).drop_last() =~= bytes@.take(i as int));
        }
        push_char(&mut out, hex_char(b / 16));
        push_char(&mut out, hex_char(b % 16));
        i = i + 1;
        assert(out@ =~= lower_hex(bytes@.take(i as int)));
    }
    assert(bytes@.take(i as int) =~= bytes@);
    proof {
        lower_hex_length(bytes@);
    }
    out
}

/// The SHA-256 checksum of `data` in lowercase hexadecimal.
pub fn sha256_hex(data: &[u8]) -> (r: String)
    ensures
        r@ == lower_hex(sha256(data@)),
        r@.len() == 64,
{
    let digest = sha256_digest(data);
    to_lower_hex(&digest)
}

/// The largest installer, in bytes, that an update may download.
pub const MAX_UPDATE_BYTES: u64 = 268435456;

/// Checks a downloaded installer: at most `MAX_UPDATE_BYTES` were written
/// and its checksum `actual` is the published `expected` one.
pub fn verify_download(bytes_written: u64, actual: &String, expected: &String) -> (r: Result<(), UpdateError>)
    ensures
        bytes_written > MAX_UPDATE_BYTES ==> (r matches Err(e) && e@
            == "Downloaded update exceeds the 256 MiB limit"@),
        bytes_written <= MAX_UPDATE_BYTES && actual@ != expected@ ==> (r matches Err(e) && e@
            == "Downloaded update did not match its release checksum"@),
        r is Ok <==> bytes_written <= MAX_UPDATE_BYTES && actual@ == expected@,
{
    if bytes_written > MAX_UPDATE_BYTES {
        return Err(UpdateError::new(String::from_str("Downloaded update exceeds the 256 MiB limit")));
    }
    if *actual != *expected {
        return Err(
            UpdateError::new(String::from_str("Downloaded update did not match its release checksum")),
        );
    }
    Ok(())
}

} // verus!
