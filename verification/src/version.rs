//! Version information of the Windows library, derived from the output of
//! `git describe --tags --long --always --abbrev=8` and the target
//! architecture.
use vstd::prelude::*;
use crate::text::{decimal, push_decimal};

verus! {

// ---------------------------------------------------------------------------
// Text helpers
// ---------------------------------------------------------------------------

/// The position of the last `c` in `s`, if any.
pub open spec fn last_index_of(s: Seq<char>, c: char) -> Option<int>
    decreases s.len(),
{
    if s.len() == 0 {
        None
    } else if s.last() == c {
        Some(s.len() - 1)
    } else {
        last_index_of(s.drop_last(), c)
    }
}

proof fn lemma_last_index_bounds(s: Seq<char>, c: char)
    ensures
        last_index_of(s, c) matches Some(i) ==> 0 <= i < s.len() && s[i] == c,
    decreases s.len(),
{
    if s.len() > 0 && s.last() != c {
        lemma_last_index_bounds(s.drop_last(), c);
    }
}

/// `s` without its leading `c`s.
pub open spec fn trim_start(s: Seq<char>, c: char) -> Seq<char>
    decreases s.len(),
{
    if s.len() > 0 && s[0] == c {
        trim_start(s.drop_first(), c)
    } else {
        s
    }
}

pub open spec fn is_digit(c: char) -> bool {
    '0' <= c && c <= '9'
}

pub open spec fn all_digits(s: Seq<char>) -> bool {
    forall|i: int| 0 <= i < s.len() ==> is_digit(#[trigger] s[i])
}

/// The value of a string of decimal digits.
pub open spec fn digits_value(s: Seq<char>) -> nat
    decreases s.len(),
{
    if s.len() == 0 {
        0
    } else {
        digits_value(s.drop_last()) * 10 + ((s.last() as nat) - 48) as nat
    }
}

/// What `str::parse::<u16>` gives: an optional `+` followed by at least one
/// decimal digit, with a value that fits 16 bits.
pub open spec fn parse_u16(s: Seq<char>) -> Option<u16> {
    let t = if s.len() > 0 && s[0] == '+' {
        s.drop_first()
    } else {
        s
    };
    if t.len() > 0 && all_digits(t) && digits_value(t) <= u16::MAX {
        Some(digits_value(t) as u16)
    } else {
        None
    }
}

/// The pieces of `s` between the `c`s, as `str::split` gives them.
pub open spec fn split_on(s: Seq<char>, c: char) -> Seq<Seq<char>>
    decreases s.len(),
{
    if s.len() == 0 {
        seq![Seq::empty()]
    } else {
        let prev = split_on(s.drop_last(), c);
        if s.last() == c {
            prev.push(Seq::empty())
        } else {
            prev.update(prev.len() - 1, prev.last().push(s.last()))
        }
    }
}

/// The numbers among the pieces, in order; pieces that are no `u16` are
/// skipped.
pub open spec fn parsed_numbers(pieces: Seq<Seq<char>>) -> Seq<u16>
    decreases pieces.len(),
{
    if pieces.len() == 0 {
        Seq::empty()
    } else {
        let prev = parsed_numbers(pieces.drop_last());
        match parse_u16(pieces.last()) {
            Some(n) => prev.push(n),
            None => prev,
        }
    }
}

proof fn lemma_split_on_nonempty(s: Seq<char>, c: char)
    ensures
        split_on(s, c).len() >= 1,
    decreases s.len(),
{
    if s.len() > 0 {
        lemma_split_on_nonempty(s.drop_last(), c);
    }
}

proof fn lemma_digits_value_monotone(s: Seq<char>, n: int)
    requires
        0 <= n <= s.len(),
        all_digits(s),
    ensures
        digits_value(s.take(n)) <= digits_value(s),
    decreases s.len() - n,
{
    if n < s.len() {
        lemma_digits_value_monotone(s, n + 1);
        assert(s.take(n + 1).drop_last() =~= s.take(n));
        assert(is_digit(s[n]));
    } else {
        assert(s.take(n) =~= s);
    }
}

/// Parses a 16-bit unsigned number, see [parse_u16].
pub fn parse_u16_text(s: &str) -> (r: Option<u16>)
    ensures
        r == parse_u16(s@),
{
    let len = s.unicode_len();
    let mut start: usize = 0;
    if len > 0 && s.get_char(0) == '+' {
        start = 1;
    }
    let ghost t = if s@.len() > 0 && s@[0] == '+' {
        s@.drop_first()
    } else {
        s@
    };
    assert(t =~= s@.skip(start as int));
    if start == len {
        return None;
    }
    let mut value: u64 = 0;
    let mut i: usize = start;
    while i < len
        invariant
            start <= i <= len,
            len == s@.len(),
            t =~= s@.skip(start as int),
            t == (if s@.len() > 0 && s@[0] == '+' {
                s@.drop_first()
            } else {
                s@
            }),
            t.len() > 0,
            all_digits(t.take(i - start)),
            value == digits_value(t.take(i - start)),
            value <= u16::MAX,
        decreases len - i,
    {
        let c = s.get_char(i);
        assert(t[i - start] == c);
        if !('0' <= c && c <= '9') {
            assert(!all_digits(t));
            return None;
        }
        let d = (c as u64) - 48;
        assert(t.take(i - start + 1).drop_last() =~= t.take(i - start));
        value = value * 10 + d;
        i = i + 1;
        if value > 65535 {
            proof {
                assert forall|k: int| 0 <= k < t.take(i - start).len() implies is_digit(#[trigger] t.take(i - start)[k]) by {
                    if k < i - 1 - start {
                        assert(t.take(i - 1 - start)[k] == t.take(i - start)[k]);
                    }
                }
                if all_digits(t) {
                    lemma_digits_value_monotone(t, i - start);
                }
            }
            return None;
        }
        assert forall|k: int| 0 <= k < t.take(i - start).len() implies is_digit(#[trigger] t.take(i - start)[k]) by {
            if k < i - 1 - start {
                assert(t.take(i - 1 - start)[k] == t.take(i - start)[k]);
            }
        }
    }
    assert(t.take(len - start) =~= t);
    Some(value as u16)
}

// ---------------------------------------------------------------------------
// The version of the library
// ---------------------------------------------------------------------------

/// Why the properties of the library cannot be derived.
#[derive(Debug, Copy, Clone, PartialEq, Eq, Structural)]
pub enum DllPropertiesError {
    /// The describe output has no count of commits since the tag.
    MissingCount,
    /// The describe output has no tag.
    MissingTag,
    /// The target architecture is none of those the library is built for.
    UnknownArchitecture,
}

/// The version fields of the library and the commit it was built from.
pub struct DllVersion {
    pub major: u16,
    pub minor: u16,
    pub patch: u16,
    pub release: u16,
    pub hash: String,
}

pub struct DllVersionView {
    pub major: u16,
    pub minor: u16,
    pub patch: u16,
    pub release: u16,
    pub hash: Seq<char>,
}

impl View for DllVersion {
    type V = DllVersionView;

    open spec fn view(&self) -> DllVersionView {
        DllVersionView {
            major: self.major,
            minor: self.minor,
            patch: self.patch,
            release: self.release,
            hash: self.hash@,
        }
    }
}

/// The describe output cut at its last two dashes, from the right: the tag
/// (which may hold dashes itself), the count of commits since the tag, and the
/// abbreviated commit hash.
pub open spec fn describe_parts(s: Seq<char>) -> Result<(Seq<char>, Seq<char>, Seq<char>), DllPropertiesError> {
    match last_index_of(s, '-') {
        None => Err(DllPropertiesError::MissingCount),
        Some(i) => {
            let rest = s.take(i);
            match last_index_of(rest, '-') {
                None => Err(DllPropertiesError::MissingTag),
                Some(j) => Ok((rest.take(j), rest.skip(j + 1), s.skip(i + 1))),
            }
        },
    }
}

proof fn lemma_last_index_after(a: Seq<char>, b: Seq<char>, c: char)
    requires
        forall|k: int| 0 <= k < b.len() ==> b[k] != c,
    ensures
        last_index_of(a.push(c) + b, c) == Some(a.len() as int),
    decreases b.len(),
{
    let s = a.push(c) + b;
    if b.len() == 0 {
        assert(s =~= a.push(c));
    } else {
        assert(s.last() == b.last());
        assert(s.drop_last() =~= a.push(c) + b.drop_last());
        lemma_last_index_after(a, b.drop_last(), c);
    }
}

/// Law: a describe output is cut at its last two dashes: for a tag (which may
/// hold dashes itself), a commit count and a hash without dashes, the output
/// `tag-count-hash` gives back that tag, count and hash.
pub proof fn lemma_describe_splits_at_last_dashes(tag: Seq<char>, count: Seq<char>, hash: Seq<char>)
    requires
        forall|k: int| 0 <= k < count.len() ==> count[k] != '-',
        forall|k: int| 0 <= k < hash.len() ==> hash[k] != '-',
    ensures
        describe_parts(tag.push('-') + count.push('-') + hash) == Ok::<
            (Seq<char>, Seq<char>, Seq<char>),
            DllPropertiesError,
        >((tag, count, hash)),
{
    let front = tag.push('-') + count;
    let s = tag.push('-') + count.push('-') + hash;
    assert(s =~= front.push('-') + hash);
    lemma_last_index_after(front, hash, '-');
    let i = front.len() as int;
    assert(s.take(i) =~= front);
    lemma_last_index_after(tag, count, '-');
    assert(front.take(tag.len() as int) =~= tag);
    assert(front.skip(tag.len() as int + 1) =~= count);
    assert(s.skip(i + 1) =~= hash);
}

/// The version for a describe output such as `v0.1-31-gc364e3f0`: the
/// numbers of the tag (without its leading `v`s) are the major, minor and
/// patch versions; the count of commits since the tag (0 where it is no
/// number) fills the first version field that the tag leaves free, as the
/// patch or as the release; the hash loses its leading `g`s.
pub open spec fn version_of(s: Seq<char>) -> Result<DllVersionView, DllPropertiesError> {
    match describe_parts(s) {
        Err(e) => Err(e),
        Ok((tag_raw, count, hash_raw)) => {
            let commits: u16 = match parse_u16(count) {
                Some(n) => n,
                None => 0,
            };
            let nums = parsed_numbers(split_on(trim_start(tag_raw, 'v'), '.'));
            let hash = trim_start(hash_raw, 'g');
            Ok(
                if nums.len() >= 3 {
                    DllVersionView { major: nums[0], minor: nums[1], patch: nums[2], release: commits, hash }
                } else if nums.len() == 2 {
                    DllVersionView { major: nums[0], minor: nums[1], patch: commits, release: 0, hash }
                } else if nums.len() == 1 {
                    DllVersionView { major: nums[0], minor: 0, patch: commits, release: 0, hash }
                } else {
                    DllVersionView { major: 0, minor: 0, patch: commits, release: 0, hash }
                },
            )
        },
    }
}

/// The product version text: `major.minor.patch.release-hash`.
pub open spec fn product_version_text(v: DllVersionView) -> Seq<char> {
    decimal(v.major as nat) + "."@ + decimal(v.minor as nat) + "."@ + decimal(v.patch as nat) + "."@ + decimal(
        v.release as nat,
    ) + "-"@ + v.hash
}

/// The file version: the four version fields, 16 bits each, major first.
pub open spec fn file_version_value(major: u16, minor: u16, patch: u16, release: u16) -> int {
    major * 0x1_0000_0000_0000 + minor * 0x1_0000_0000 + patch * 0x1_0000 + release
}

/// The label of a target architecture, where it is one the library is built
/// for.
pub open spec fn architecture_label(arch: Seq<char>) -> Option<Seq<char>> {
    if arch == "x86_64"@ {
        Some("x64"@)
    } else if arch == "x86"@ {
        Some("x32"@)
    } else if arch == "aarch64"@ {
        Some("arm64"@)
    } else if arch == "arm"@ {
        Some("arm32"@)
    } else {
        None
    }
}

/// Law: the Windows architecture labels: x86_64 is x64, x86 is x32, aarch64
/// is arm64 and arm is arm32; any other architecture has no label.
pub proof fn lemma_architecture_labels(arch: Seq<char>)
    ensures
        architecture_label("x86_64"@) == Some("x64"@),
        architecture_label("x86"@) == Some("x32"@),
        architecture_label("aarch64"@) == Some("arm64"@),
        architecture_label("arm"@) == Some("arm32"@),
        arch != "x86_64"@ && arch != "x86"@ && arch != "aarch64"@ && arch != "arm"@ ==> architecture_label(arch)
            is None,
{
    reveal_strlit("x86_64");
    reveal_strlit("x86");
    reveal_strlit("aarch64");
    reveal_strlit("arm");
    assert("x86"@ != "x86_64"@) by {
        assert("x86"@.len() != "x86_64"@.len());
    }
    assert("aarch64"@ != "x86_64"@ && "aarch64"@ != "x86"@) by {
        assert("aarch64"@[0] != "x86"@[0]);
    }
    assert("arm"@ != "x86_64"@ && "arm"@ != "x86"@ && "arm"@ != "aarch64"@) by {
        assert("arm"@[0] != "x86"@[0]);
        assert("arm"@.len() != "aarch64"@.len());
    }
}

/// The position of the last dash among the first `end` characters of `s`.
fn last_dash(s: &str, end: usize) -> (r: Option<usize>)
    requires
        end <= s@.len(),
    ensures
        match r {
            Some(i) => last_index_of(s@.take(end as int), '-') == Some(i as int),
            None => last_index_of(s@.take(end as int), '-') is None,
        },
{
    let mut k: usize = end;
    while k > 0
        invariant
            k <= end <= s@.len(),
            last_index_of(s@.take(end as int), '-') == last_index_of(s@.take(k as int), '-'),
        decreases k,
    {
        assert(s@.take(k as int).drop_last() =~= s@.take(k - 1));
        if s.get_char(k - 1) == '-' {
            return Some(k - 1);
        }
        k = k - 1;
    }
    None
}

/// `s` without its leading `c`s.
fn trim_start_char(s: &str, c: char) -> (r: &str)
    ensures
        r@ == trim_start(s@, c),
{
    let len = s.unicode_len();
    let mut i: usize = 0;
    assert(s@.skip(0) =~= s@);
    while i < len && s.get_char(i) == c
        invariant
            i <= len == s@.len(),
            trim_start(s@.skip(i as int), c) == trim_start(s@, c),
        decreases len - i,
    {
        assert(s@.skip(i as int).drop_first() =~= s@.skip(i + 1));
        i = i + 1;
    }
    let r = s.substring_char(i, len);
    assert(r@ =~= s@.skip(i as int));
    r
}

proof fn lemma_parsed_numbers_push(pieces: Seq<Seq<char>>, p: Seq<char>)
    ensures
        parsed_numbers(pieces.push(p)) == match parse_u16(p) {
            Some(n) => parsed_numbers(pieces).push(n),
            None => parsed_numbers(pieces),
        },
{
    assert(pieces.push(p).drop_last() =~= pieces);
}

/// The numbers among the dot-separated pieces of `tag`.
fn parse_tag_numbers(tag: &str) -> (nums: Vec<u16>)
    ensures
        nums@ == parsed_numbers(split_on(tag@, '.')),
{
    let len = tag.unicode_len();
    let mut nums: Vec<u16> = Vec::new();
    let mut piece_start: usize = 0;
    let mut i: usize = 0;
    proof {
        assert(tag@.take(0) =~= Seq::<char>::empty());
        assert(split_on(Seq::<char>::empty(), '.') == seq![Seq::<char>::empty()]);
        assert(seq![Seq::<char>::empty()].drop_last() =~= Seq::<Seq<char>>::empty());
        assert(tag@.subrange(0, 0) =~= Seq::<char>::empty());
    }
    while i < len
        invariant
            piece_start <= i <= len == tag@.len(),
            split_on(tag@.take(i as int), '.').len() >= 1,
            split_on(tag@.take(i as int), '.').last() == tag@.subrange(piece_start as int, i as int),
            nums@ == parsed_numbers(split_on(tag@.take(i as int), '.').drop_last()),
        decreases len - i,
    {
        let ghost sp = split_on(tag@.take(i as int), '.');
        let c = tag.get_char(i);
        proof {
            assert(tag@.take(i + 1).drop_last() =~= tag@.take(i as int));
            assert(tag@.take(i + 1).last() == c);
        }
        if c == '.' {
            let piece = tag.substring_char(piece_start, i);
            let parsed = parse_u16_text(piece);
            if let Some(n) = parsed {
                nums.push(n);
            }
            piece_start = i + 1;
            proof {
                let sp2 = split_on(tag@.take(i + 1), '.');
                assert(sp2 == sp.push(Seq::empty()));
                assert(sp2.drop_last() =~= sp);
                assert(sp =~= sp.drop_last().push(sp.last()));
                lemma_parsed_numbers_push(sp.drop_last(), sp.last());
                assert(tag@.subrange(i + 1, i + 1) =~= Seq::<char>::empty());
            }
        } else {
            proof {
                let sp2 = split_on(tag@.take(i + 1), '.');
                assert(sp2 == sp.update(sp.len() - 1, sp.last().push(c)));
                assert(sp2.drop_last() =~= sp.drop_last());
                assert(tag@.subrange(piece_start as int, i + 1) =~= tag@.subrange(piece_start as int, i as int).push(c));
            }
        }
        i = i + 1;
    }
    let piece = tag.substring_char(piece_start, len);
    let parsed = parse_u16_text(piece);
    if let Some(n) = parsed {
        nums.push(n);
    }
    proof {
        assert(tag@.take(len as int) =~= tag@);
        let sp = split_on(tag@, '.');
        assert(sp =~= sp.drop_last().push(sp.last()));
        lemma_parsed_numbers_push(sp.drop_last(), sp.last());
    }
    nums
}

/// The version for a describe output, see [version_of].
pub fn parse_describe(describe: &str) -> (r: Result<DllVersion, DllPropertiesError>)
    ensures
        match r {
            Ok(v) => version_of(describe@) == Ok::<DllVersionView, DllPropertiesError>(v@),
            Err(e) => version_of(describe@) == Err::<DllVersionView, DllPropertiesError>(e),
        },
{
    let len = describe.unicode_len();
    let i1 = match last_dash(describe, len) {
        Some(i) => i,
        None => {
            assert(describe@.take(len as int) =~= describe@);
            return Err(DllPropertiesError::MissingCount);
        },
    };
    assert(describe@.take(len as int) =~= describe@);
    proof {
        lemma_last_index_bounds(describe@, '-');
    }
    let i2 = match last_dash(describe, i1) {
        Some(i) => i,
        None => {
            return Err(DllPropertiesError::MissingTag);
        },
    };
    proof {
        lemma_last_index_bounds(describe@.take(i1 as int), '-');
    }
    let hash_raw = describe.substring_char(i1 + 1, len);
    let count_str = describe.substring_char(i2 + 1, i1);
    let tag_raw = describe.substring_char(0, i2);
    proof {
        let rest = describe@.take(i1 as int);
        assert(hash_raw@ =~= describe@.skip(i1 + 1));
        assert(count_str@ =~= rest.skip(i2 + 1));
        assert(tag_raw@ =~= rest.take(i2 as int));
    }
    let tag = trim_start_char(tag_raw, 'v');
    let hash = trim_start_char(hash_raw, 'g');
    let commits_since: u16 = match parse_u16_text(count_str) {
        Some(n) => n,
        None => 0,
    };
    let tag_parts = parse_tag_numbers(tag);
    let hash_string = String::from_str(hash);
    let v = if tag_parts.len() >= 3 {
        DllVersion { major: tag_parts[0], minor: tag_parts[1], patch: tag_parts[2], release: commits_since, hash: hash_string }
    } else if tag_parts.len() == 2 {
        DllVersion { major: tag_parts[0], minor: tag_parts[1], patch: commits_since, release: 0, hash: hash_string }
    } else if tag_parts.len() == 1 {
        DllVersion { major: tag_parts[0], minor: 0, patch: commits_since, release: 0, hash: hash_string }
    } else {
        DllVersion { major: 0, minor: 0, patch: commits_since, release: 0, hash: hash_string }
    };
    Ok(v)
}

/// The product version text, see [product_version_text].
pub fn product_version_string(v: &DllVersion) -> (s: String)
    ensures
        s@ == product_version_text(v@),
{
    let mut s = String::new();
    push_decimal(&mut s, v.major as u64);
    s.append(".");
    push_decimal(&mut s, v.minor as u64);
    s.append(".");
    push_decimal(&mut s, v.patch as u64);
    s.append(".");
    push_decimal(&mut s, v.release as u64);
    s.append("-");
    s.append(v.hash.as_str());
    assert(s@ =~= product_version_text(v@));
    s
}

/// The file version, see [file_version_value].
pub fn file_version(major: u16, minor: u16, patch: u16, release: u16) -> (f: u64)
    ensures
        f == file_version_value(major, minor, patch, release),
{
    let f = ((major as u64) << 48) | ((minor as u64) << 32) | ((patch as u64) << 16) | (release as u64);
    assert(f == (major as u64) * 0x1_0000_0000_0000u64 + (minor as u64) * 0x1_0000_0000u64 + (patch as u64)
        * 0x1_0000u64 + (release as u64)) by (bit_vector)
        requires
            f == ((major as u64) << 48) | ((minor as u64) << 32) | ((patch as u64) << 16) | (release as u64),
    ;
    f
}

/// Law: the version fields can be read back from the file version, 16 bits
/// each, major first.
pub proof fn lemma_file_version_fields(major: u16, minor: u16, patch: u16, release: u16)
    ensures
        file_version_value(major, minor, patch, release) <= u64::MAX,
        (file_version_value(major, minor, patch, release) as u64) >> 48 == major,
        ((file_version_value(major, minor, patch, release) as u64) >> 32) & 0xffff == minor,
        ((file_version_value(major, minor, patch, release) as u64) >> 16) & 0xffff == patch,
        (file_version_value(major, minor, patch, release) as u64) & 0xffff == release,
{
    let v = file_version_value(major, minor, patch, release);
    assert(0 <= v <= u64::MAX);
    let f: u64 = v as u64;
    assert(f >> 48 == major && (f >> 32) & 0xffff == minor && (f >> 16) & 0xffff == patch && f & 0xffff
        == release) by (bit_vector)
        requires
            f == (major as u64) * 0x1_0000_0000_0000u64 + (minor as u64) * 0x1_0000_0000u64 + (patch as u64)
                * 0x1_0000u64 + (release as u64),
    ;
}

fn str_eq(a: &str, b: &str) -> (r: bool)
    ensures
        r == (a@ == b@),
{
    String::from_str(a) == String::from_str(b)
}

/// The label of a target architecture, see [architecture_label].
pub fn windows_architecture(arch: &str) -> (r: Option<&'static str>)
    ensures
        match r {
            Some(l) => architecture_label(arch@) == Some(l@),
            None => architecture_label(arch@) is None,
        },
{
    if str_eq(arch, "x86_64") {
        Some("x64")
    } else if str_eq(arch, "x86") {
        Some("x32")
    } else if str_eq(arch, "aarch64") {
        Some("arm64")
    } else if str_eq(arch, "arm") {
        Some("arm32")
    } else {
        None
    }
}

/// The properties of the Windows library.
pub struct DllProperties {
    pub version: DllVersion,
    pub product_version: String,
    pub file_version: u64,
    pub file_description: String,
    pub product_name: String,
    pub legal_copyright: String,
}

/// The properties of the Windows library for a describe output and a target
/// architecture: the version (see [version_of]), the product version text,
/// the file version, the description `ProTUN Windows <architecture>`, the
/// product name and the copyright notice.
pub fn dll_properties(describe: &str, target_arch: &str) -> (r: Result<DllProperties, DllPropertiesError>)
    ensures
        match r {
            Ok(p) => {
                &&& version_of(describe@) == Ok::<DllVersionView, DllPropertiesError>(p.version@)
                &&& p.product_version@ == product_version_text(p.version@)
                &&& p.file_version == file_version_value(
                    p.version.major,
                    p.version.minor,
                    p.version.patch,
                    p.version.release,
                )
                &&& architecture_label(target_arch@) matches Some(l)
                &&& p.file_description@ == "ProTUN Windows "@ + l
                &&& p.product_name@ == "Proton VPN"@
                &&& p.legal_copyright@ == "Copyright © 2026 Proton AG"@
            },
            Err(e) => {
                ||| version_of(describe@) == Err::<DllVersionView, DllPropertiesError>(e)
                ||| (version_of(describe@) is Ok && architecture_label(target_arch@) is None && e
                    == DllPropertiesError::UnknownArchitecture)
            },
        },
{
    let version = match parse_describe(describe) {
        Ok(v) => v,
        Err(e) => return Err(e),
    };
    let label = match windows_architecture(target_arch) {
        Some(l) => l,
        None => return Err(DllPropertiesError::UnknownArchitecture),
    };
    let product_version = product_version_string(&version);
    let file_version = file_version(version.major, version.minor, version.patch, version.release);
    let mut file_description = String::from_str("ProTUN Windows ");
    file_description.append(label);
    let product_name = String::from_str("Proton VPN");
    let legal_copyright = String::from_str("Copyright © 2026 Proton AG");
    Ok(DllProperties { version, product_version, file_version, file_description, product_name, legal_copyright })
}

} // verus!
