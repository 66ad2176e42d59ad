//! The sticker workspace: which stickers were extracted, with their checksums.
use vstd::prelude::*;
use crate::bytes::push_all;
use vstd::string::StrSliceExecFns;

verus! {

/// The lower-case hexadecimal digit of `n`.
pub open spec fn hex_digit(n: u8) -> char {
    if n == 0 {
        '0'
    } else if n == 1 {
        '1'
    } else if n == 2 {
        '2'
    } else if n == 3 {
        '3'
    } else if n == 4 {
        '4'
    } else if n == 5 {
        '5'
    } else if n == 6 {
        '6'
    } else if n == 7 {
        '7'
    } else if n == 8 {
        '8'
    } else if n == 9 {
        '9'
    } else if n == 10 {
        'a'
    } else if n == 11 {
        'b'
    } else if n == 12 {
        'c'
    } else if n == 13 {
        'd'
    } else if n == 14 {
        'e'
    } else {
        'f'
    }
}

/// Two lower-case hexadecimal digits per byte, high digit first.
pub open spec fn hex_of(b: Seq<u8>) -> Seq<char>
    decreases b.len(),
{
    if b.len() == 0 {
        Seq::empty()
    } else {
        hex_of(b.drop_last()) + seq![hex_digit(b.last() / 16), hex_digit(b.last() % 16)]
    }
}

/// The digit of `n` as a one-character string.
fn hex_digit_str(n: u8) -> (r: &'static str)
    requires
        n < 16,
    ensures
        r@ == seq![hex_digit(n)],
{
    proof {
        reveal_strlit("0");
        reveal_strlit("1");
        reveal_strlit("2");
        reveal_strlit("3");
        reveal_strlit("4");
        reveal_strlit("5");
        reveal_strlit("6");
        reveal_strlit("7");
        reveal_strlit("8");
        reveal_strlit("9");
        reveal_strlit("a");
        reveal_strlit("b");
        reveal_strlit("c");
        reveal_strlit("d");
        reveal_strlit("e");
        reveal_strlit("f");
    }
    match n {
        0 => "0",
        1 => "1",
        2 => "2",
        3 => "3",
        4 => "4",
        5 => "5",
        6 => "6",
        7 => "7",
        8 => "8",
        9 => "9",
        10 => "a",
        11 => "b",
        12 => "c",
        13 => "d",
        14 => "e",
        _ => "f",
    }
}

/// The value of a hexadecimal digit of either case.
pub open spec fn hex_value(c: char) -> Option<u8> {
    if '0' <= c && c <= '9' {
        Some((c as int - '0' as int) as u8)
    } else if 'a' <= c && c <= 'f' {
        Some((c as int - 'a' as int + 10) as u8)
    } else if 'A' <= c && c <= 'F' {
        Some((c as int - 'A' as int + 10) as u8)
    } else {
        None
    }
}

/// Whether `s` is an even number of hexadecimal digits.
pub open spec fn is_hex_text(s: Seq<char>) -> bool {
    &&& s.len() % 2 == 0
    &&& forall|i: int| 0 <= i < s.len() ==> (#[trigger] hex_value(s[i])) is Some
}

/// The bytes that pairs of hexadecimal digits spell, high digit first.
pub open spec fn hex_bytes(s: Seq<char>) -> Seq<u8>
    decreases s.len(),
{
    if s.len() < 2 {
        Seq::empty()
    } else {
        let hi = hex_value(s[s.len() - 2])->Some_0;
        let lo = hex_value(s[s.len() - 1])->Some_0;
        hex_bytes(s.subrange(0, s.len() - 2)) + seq![(hi * 16 + lo) as u8]
    }
}

/// Each digit that `hex_of` writes reads back as its value.
pub proof fn lemma_hex_digit_value(n: u8)
    requires
        n < 16,
    ensures
        hex_value(hex_digit(n)) == Some(n),
{
}

/// `hex_of` writes two digits per byte.
pub proof fn lemma_hex_of_len(b: Seq<u8>)
    ensures
        hex_of(b).len() == 2 * b.len(),
    decreases b.len(),
{
    if b.len() > 0 {
        lemma_hex_of_len(b.drop_last());
    }
}

/// Hexadecimal text written for some bytes is valid text and spells those bytes again.
pub proof fn lemma_hex_round_trip(b: Seq<u8>)
    ensures
        is_hex_text(hex_of(b)),
        hex_bytes(hex_of(b)) == b,
    decreases b.len(),
{
    lemma_hex_of_len(b);
    if b.len() > 0 {
        let p = b.drop_last();
        let x = b.last();
        lemma_hex_round_trip(p);
        lemma_hex_of_len(p);
        lemma_hex_digit_value(x / 16);
        lemma_hex_digit_value(x % 16);
        let t = hex_of(b);
        assert(t.subrange(0, t.len() - 2) =~= hex_of(p));
        assert(t[t.len() - 2] == hex_digit(x / 16));
        assert(t[t.len() - 1] == hex_digit(x % 16));
        assert(((x / 16) * 16 + x % 16) as u8 == x);
        assert(hex_bytes(t) =~= b);
        assert forall|i: int| 0 <= i < t.len() implies (#[trigger] hex_value(t[i])) is Some by {
            if i < t.len() - 2 {
                assert(t[i] == hex_of(p)[i]);
            }
        }
    }
}

/// The error of hex::decode, carried through as it is.
#[verifier::external_type_specification]
#[verifier::external_body]
pub struct ExFromHexError(hex::FromHexError);

/// Relies on hex::decode: it succeeds exactly on an even number of hexadecimal digits of
/// either case, and returns the bytes that the pairs spell, high digit first.
#[verifier::external_body]
fn decode_hex(s: &str) -> (r: Result<Vec<u8>, hex::FromHexError>)
    ensures
        r is Ok <==> is_hex_text(s@),
        r is Ok ==> r->Ok_0@ == hex_bytes(s@),
{
    hex::decode(s)
}

/// The SHA-256 digest of `data`.
pub uninterp spec fn sha256_of(data: Seq<u8>) -> Seq<u8>;

/// Relies on ring::digest::digest with SHA256: the 32-byte digest, a function of the bytes
/// alone.
#[verifier::external_body]
fn sha256(data: &[u8]) -> (r: Vec<u8>)
    ensures
        r@ == sha256_of(data@),
        r@.len() == 32,
{
    ring::digest::digest(&ring::digest::SHA256, data).as_ref().to_vec()
}

/// Whether `c` is an ASCII decimal digit.
pub open spec fn is_decimal_digit(c: char) -> bool {
    '0' <= c && c <= '9'
}

/// The value of a run of decimal digits.
pub open spec fn digits_value(s: Seq<char>) -> int
    decreases s.len(),
{
    if s.len() == 0 {
        0
    } else {
        digits_value(s.drop_last()) * 10 + (s.last() as int - '0' as int)
    }
}

/// Whether `s` is one or more decimal digits.
pub open spec fn is_digit_run(s: Seq<char>) -> bool {
    s.len() > 0 && forall|i: int| 0 <= i < s.len() ==> is_decimal_digit(#[trigger] s[i])
}

/// The integer that `s` writes in decimal, with an optional sign.
pub open spec fn decimal_value(s: Seq<char>) -> Option<int> {
    if s.len() > 0 && s[0] == '-' && is_digit_run(s.drop_first()) {
        Some(-digits_value(s.drop_first()))
    } else if s.len() > 0 && s[0] == '+' && is_digit_run(s.drop_first()) {
        Some(digits_value(s.drop_first()))
    } else if is_digit_run(s) {
        Some(digits_value(s))
    } else {
        None
    }
}

/// The `i32` that `s` writes in decimal, if it is one and fits.
pub open spec fn i32_of_text(s: Seq<char>) -> Option<i32> {
    match decimal_value(s) {
        Some(v) => if i32::MIN <= v && v <= i32::MAX {
            Some(v as i32)
        } else {
            None
        },
        None => None,
    }
}

/// Relies on `str::parse::<i32>`: an optional `+` or `-` sign followed by one or more
/// decimal digits and nothing else, whose value fits in `i32`.
#[verifier::external_body]
fn parse_i32(s: &str) -> (r: Option<i32>)
    ensures
        r == i32_of_text(s@),
{
    s.parse::<i32>().ok()
}

/// The position of the last `_` in `s`.
pub open spec fn last_underscore(s: Seq<char>) -> Option<int>
    decreases s.len(),
{
    if s.len() == 0 {
        None
    } else if s.last() == '_' {
        Some(s.len() - 1)
    } else {
        last_underscore(s.drop_last())
    }
}

/// Why a sticker file name could not be read as `<collection>_<number>`.
#[derive(Debug, Clone, Copy, PartialEq, Eq, Structural)]
pub enum StickerNameError {
    /// The name holds no `_`.
    NoSeparator,
    /// What follows the last `_` is not a decimal `i32`.
    BadId,
}

/// What reading the file stem `stem` as `<collection>_<number>` gives: the part before the
/// last `_`, and the number after it.
pub open spec fn sticker_name_of(stem: Seq<char>) -> Result<(Seq<char>, i32), StickerNameError> {
    match last_underscore(stem) {
        None => Err(StickerNameError::NoSeparator),
        Some(k) => match i32_of_text(stem.subrange(k + 1, stem.len() as int)) {
            None => Err(StickerNameError::BadId),
            Some(id) => Ok((stem.subrange(0, k), id)),
        },
    }
}

/// The position that `last_underscore` finds holds a `_`.
proof fn lemma_last_underscore_bounds(s: Seq<char>)
    ensures
        last_underscore(s) matches Some(k) ==> 0 <= k < s.len() && s[k] == '_',
    decreases s.len(),
{
    if s.len() > 0 && s.last() != '_' {
        lemma_last_underscore_bounds(s.drop_last());
    }
}

/// Splits a sticker file stem into its collection and its number.
pub fn parse_sticker_name(stem: &str) -> (r: Result<(String, i32), StickerNameError>)
    ensures
        match sticker_name_of(stem@) {
            Ok((collection, id)) => r matches Ok((c, i)) && c@ == collection && i == id,
            Err(e) => r == Err::<(String, i32), StickerNameError>(e),
        },
{
    let n = stem.unicode_len();
    let mut k: usize = n;
    assert(stem@.subrange(0, n as int) =~= stem@);
    while k > 0 && stem.get_char(k - 1) != '_'
        invariant
            k <= n,
            n == stem@.len(),
            last_underscore(stem@) == last_underscore(stem@.subrange(0, k as int)),
        decreases k,
    {
        proof {
            let pre = stem@.subrange(0, k as int);
            assert(pre.drop_last() =~= stem@.subrange(0, k - 1));
        }
        k = k - 1;
    }
    proof {
        lemma_last_underscore_bounds(stem@);
        if k == 0 {
            assert(stem@.subrange(0, 0) =~= Seq::<char>::empty());
        } else {
            assert(stem@.subrange(0, k as int).last() == '_');
        }
    }
    if k == 0 {
        return Err(StickerNameError::NoSeparator);
    }
    let id_text = stem.substring_char(k, n);
    match parse_i32(id_text) {
        None => Err(StickerNameError::BadId),
        Some(id) => {
            let collection = stem.substring_char(0, k - 1).to_owned();
            Ok((collection, id))
        },
    }
}

/// A SHA-256 checksum, held as its bytes.
#[derive(Debug, Clone)]
pub struct HashString(Vec<u8>);

impl View for HashString {
    type V = Seq<u8>;

    closed spec fn view(&self) -> Seq<u8> {
        self.0@
    }
}

impl HashString {
    /// A checksum with the bytes `bytes`.
    pub fn from_bytes(bytes: Vec<u8>) -> (r: HashString)
        ensures
            r@ == bytes@,
    {
        HashString(bytes)
    }

    /// The SHA-256 checksum of `data`.
    pub fn digest_of(data: &[u8]) -> (r: HashString)
        ensures
            r@ == sha256_of(data@),
            r@.len() == 32,
    {
        HashString(sha256(data))
    }

    /// Parses lower- or upper-case hexadecimal text, two digits per byte.
    pub fn from_hex(hex_str: &str) -> (r: Result<HashString, hex::FromHexError>)
        ensures
            r is Ok <==> is_hex_text(hex_str@),
            r is Ok ==> r->Ok_0@ == hex_bytes(hex_str@),
    {
        match decode_hex(hex_str) {
            Ok(bytes) => Ok(HashString(bytes)),
            Err(e) => Err(e),
        }
    }

    /// The bytes of the checksum.
    pub fn as_bytes(&self) -> (r: &[u8])
        ensures
            r@ == self@,
    {
        self.0.as_slice()
    }

    /// Lower-case hexadecimal text, two digits per byte.
    pub fn to_hex(&self) -> (r: String)
        ensures
            r@ == hex_of(self@),
    {
        let mut s = String::new();
        let mut i: usize = 0;
        while i < self.0.len()
            invariant
                i <= self@.len(),
                s@ == hex_of(self@.subrange(0, i as int)),
            decreases self@.len() - i,
        {
            let b = self.0[i];
            s.append(hex_digit_str(b / 16));
            s.append(hex_digit_str(b % 16));
            proof {
                let next = self@.subrange(0, i + 1);
                assert(next.drop_last() =~= self@.subrange(0, i as int));
                assert(next.last() == b);
            }
            i = i + 1;
        }
        assert(self@.subrange(0, self@.len() as int) =~= self@);
        s
    }

    /// Whether the checksum has exactly the bytes of `digest`.
    pub fn matches_digest(&self, digest: &[u8]) -> (r: bool)
        ensures
            r == (self@ == digest@),
    {
        if self.0.len() != digest.len() {
            return false;
        }
        let mut i: usize = 0;
        while i < digest.len()
            invariant
                self@.len() == digest@.len(),
                i <= digest@.len(),
                forall|j: int| 0 <= j < i ==> self@[j] == digest@[j],
            decreases digest@.len() - i,
        {
            if self.0[i] != digest[i] {
                return false;
            }
            i = i + 1;
        }
        assert(self@ =~= digest@);
        true
    }
}

/// Writing a checksum as hexadecimal text and parsing the text back gives the same bytes.
pub proof fn lemma_checksum_text_round_trip(h: HashString)
    ensures
        is_hex_text(hex_of(h@)),
        hex_bytes(hex_of(h@)) == h@,
{
    lemma_hex_round_trip(h@);
}

impl PartialEq for HashString {
    fn eq(&self, other: &HashString) -> (r: bool)
        ensures
            r == (self@ == other@),
    {
        self.matches_digest(other.0.as_slice())
    }
}

impl vstd::std_specs::cmp::PartialEqSpecImpl for HashString {
    open spec fn obeys_eq_spec() -> bool {
        true
    }

    open spec fn eq_spec(&self, other: &HashString) -> bool {
        self@ == other@
    }
}

impl Eq for HashString {

}

/// One sticker of a workspace: its collection, its number in the collection, its file name
/// and the checksum of the file as extracted.
#[derive(Debug, Clone)]
pub struct StickerInfo {
    pub collection: String,
    pub id: i32,
    pub name: String,
    pub checksum_sha256: HashString,
}

impl View for StickerInfo {
    type V = (Seq<char>, i32, Seq<char>, Seq<u8>);

    open spec fn view(&self) -> (Seq<char>, i32, Seq<char>, Seq<u8>) {
        (self.collection@, self.id, self.name@, self.checksum_sha256@)
    }
}

impl StickerInfo {
    /// A copy with the same collection, number, name and checksum.
    pub fn copied(&self) -> (r: StickerInfo)
        ensures
            r@ == self@,
    {
        let mut bytes: Vec<u8> = Vec::new();
        push_all(&mut bytes, self.checksum_sha256.as_bytes());
        StickerInfo {
            collection: self.collection.clone(),
            id: self.id,
            name: self.name.clone(),
            checksum_sha256: HashString::from_bytes(bytes),
        }
    }
}

/// The collection names of `stickers`, each once.
pub open spec fn collections_of(stickers: Seq<StickerInfo>) -> Set<Seq<char>> {
    stickers.map_values(|s: StickerInfo| s.collection@).to_set()
}

/// The version of the workspace layout that this library writes.
pub const WORKSPACE_VERSION: i32 = 1;

/// What a workspace holds: its layout version and its stickers.
#[derive(Debug, Clone)]
pub struct WorkspaceInfo {
    version: i32,
    stickers: Vec<StickerInfo>,
}

impl WorkspaceInfo {
    /// The layout version.
    pub closed spec fn spec_version(&self) -> i32 {
        self.version
    }

    /// The stickers, in the order of extraction.
    pub closed spec fn spec_stickers(&self) -> Seq<StickerInfo> {
        self.stickers@
    }

    /// A workspace record with the given version and stickers.
    pub fn new(version: i32, stickers: Vec<StickerInfo>) -> (r: WorkspaceInfo)
        ensures
            r.spec_version() == version,
            r.spec_stickers() == stickers@,
    {
        WorkspaceInfo { version, stickers }
    }

    /// The layout version.
    pub fn version(&self) -> (r: i32)
        ensures
            r == self.spec_version(),
    {
        self.version
    }

    /// The stickers, in the order of extraction.
    pub fn stickers(&self) -> (r: &[StickerInfo])
        ensures
            r@ == self.spec_stickers(),
    {
        self.stickers.as_slice()
    }

    /// Records one more sticker.
    pub fn add_sticker(&mut self, sticker: StickerInfo)
        ensures
            final(self).spec_version() == old(self).spec_version(),
            final(self).spec_stickers() == old(self).spec_stickers().push(sticker),
    {
        self.stickers.push(sticker);
    }

    /// The number of distinct collections among the stickers.
    pub fn collection_count(&self) -> (r: usize)
        ensures
            r == collections_of(self.spec_stickers()).len(),
    {
        let mut seen: Vec<String> = Vec::new();
        let mut i: usize = 0;
        while i < self.stickers.len()
            invariant
                i <= self.stickers@.len(),
                seen@.len() <= i,
                seen@.map_values(|t: String| t@).no_duplicates(),
                seen@.map_values(|t: String| t@).to_set() == collections_of(
                    self.stickers@.subrange(0, i as int),
                ),
            decreases self.stickers@.len() - i,
        {
            let name = &self.stickers[i].collection;
            let mut found = false;
            let mut j: usize = 0;
            while j < seen.len()
                invariant
                    j <= seen@.len(),
                    found == exists|k: int| 0 <= k < j && seen@[k]@ == name@,
                decreases seen@.len() - j,
            {
                if seen[j] == *name {
                    found = true;
                }
                j = j + 1;
            }
            let ghost old_seen = seen@;
            let ghost prefix = self.stickers@.subrange(0, i as int);
            let ghost next = self.stickers@.subrange(0, i + 1);
            proof {
                assert(next =~= prefix.push(self.stickers@[i as int]));
                assert(next.map_values(|s: StickerInfo| s.collection@) =~= prefix.map_values(
                    |s: StickerInfo| s.collection@,
                ).push(name@));
                prefix.map_values(|s: StickerInfo| s.collection@).lemma_push_to_set_commute(name@);
            }
            if !found {
                seen.push(name.clone());
                proof {
                    let m = old_seen.map_values(|t: String| t@);
                    assert(seen@.map_values(|t: String| t@) =~= m.push(name@));
                    m.lemma_push_to_set_commute(name@);
                    assert(!m.contains(name@)) by {
                        if m.contains(name@) {
                            let k = choose|k: int| 0 <= k < m.len() && m[k] == name@;
                            assert(old_seen[k]@ == name@);
                        }
                    }
                    assert(m.push(name@).no_duplicates()) by {
                        assert forall|a: int, b: int|
                            0 <= a < m.push(name@).len() && 0 <= b < m.push(name@).len() && a
                                != b implies m.push(name@)[a] != m.push(name@)[b] by {
                            if a < m.len() && b < m.len() {
                            } else if a == m.len() {
                                assert(m.push(name@)[b] == m[b]);
                                assert(m.contains(m[b]));
                            } else {
                                assert(m.push(name@)[a] == m[a]);
                                assert(m.contains(m[a]));
                            }
                        }
                    }
                }
            } else {
                proof {
                    let m = old_seen.map_values(|t: String| t@);
                    let k = choose|k: int| 0 <= k < j && seen@[k]@ == name@;
                    assert(m[k] == name@);
                    assert(m.to_set().contains(name@));
                    assert(m.to_set().insert(name@) =~= m.to_set());
                }
            }
            i = i + 1;
        }
        assert(self.stickers@.subrange(0, self.stickers@.len() as int) =~= self.stickers@);
        proof {
            seen@.map_values(|t: String| t@).unique_seq_to_set();
        }
        seen.len()
    }
}

impl Default for WorkspaceInfo {
    fn default() -> (r: WorkspaceInfo)
        ensures
            r.spec_version() == WORKSPACE_VERSION,
            r.spec_stickers().len() == 0,
    {
        WorkspaceInfo { version: WORKSPACE_VERSION, stickers: Vec::new() }
    }
}

/// The stickers of `stickers` that belong to `collection`, in order.
pub open spec fn in_collection(stickers: Seq<StickerInfo>, collection: Seq<char>) -> Seq<
    (Seq<char>, i32, Seq<char>, Seq<u8>),
> {
    stickers.filter(|s: StickerInfo| s.collection@ == collection).map_values(|s: StickerInfo| s@)
}

/// A workspace: its record and the directory that holds it.
#[derive(Debug, Clone)]
pub struct Workspace {
    info: WorkspaceInfo,
    root_path: String,
}

impl Workspace {
    /// The record of the workspace.
    pub closed spec fn spec_info(&self) -> WorkspaceInfo {
        self.info
    }

    /// The directory of the workspace.
    pub closed spec fn spec_root_path(&self) -> Seq<char> {
        self.root_path@
    }

    /// A workspace with the record `info`, kept in the directory `root_path`.
    pub fn new(info: WorkspaceInfo, root_path: String) -> (r: Workspace)
        ensures
            r.spec_info() == info,
            r.spec_root_path() == root_path@,
    {
        Workspace { info, root_path }
    }

    /// The record of the workspace.
    pub fn info(&self) -> (r: &WorkspaceInfo)
        ensures
            *r == self.spec_info(),
    {
        &self.info
    }

    /// The directory of the workspace.
    pub fn root_path(&self) -> (r: &str)
        ensures
            r@ == self.spec_root_path(),
    {
        self.root_path.as_str()
    }

    /// Records one more sticker.
    pub fn add_sticker(&mut self, sticker: StickerInfo)
        ensures
            final(self).spec_root_path() == old(self).spec_root_path(),
            final(self).spec_info().spec_version() == old(self).spec_info().spec_version(),
            final(self).spec_info().spec_stickers() == old(self).spec_info().spec_stickers().push(
                sticker,
            ),
    {
        self.info.add_sticker(sticker);
    }

    /// Copies of the stickers of the collection named `collection_name`, in order.
    pub fn get_collection(&self, collection_name: &str) -> (r: Vec<StickerInfo>)
        ensures
            r@.map_values(|s: StickerInfo| s@) == in_collection(
                self.spec_info().spec_stickers(),
                collection_name@,
            ),
    {
        let stickers = self.info.stickers();
        let ghost all = self.info.spec_stickers();
        let ghost wanted = collection_name@;
        let name = collection_name.to_owned();
        let mut out: Vec<StickerInfo> = Vec::new();
        let mut i: usize = 0;
        while i < stickers.len()
            invariant
                stickers@ == all,
                name@ == wanted,
                wanted == collection_name@,
                i <= all.len(),
                out@.map_values(|s: StickerInfo| s@) == in_collection(
                    all.subrange(0, i as int),
                    wanted,
                ),
            decreases all.len() - i,
        {
            let ghost prefix = all.subrange(0, i as int);
            let ghost member = all[i as int];
            proof {
                assert(all.subrange(0, i + 1) =~= prefix.push(member));
                prefix.lemma_filter_push(member, |s: StickerInfo| s.collection@ == collection_name@);
            }
            if stickers[i].collection == name {
                let c = stickers[i].copied();
                let ghost old_out = out@;
                out.push(c);
                proof {
                    let kept = prefix.filter(|s: StickerInfo| s.collection@ == collection_name@);
                    assert(stickers@[i as int].collection@ == name@);
                    assert(member.collection@ == wanted);
                    assert(c@ == member@);
                    assert(out@.map_values(|s: StickerInfo| s@) =~= old_out.map_values(
                        |s: StickerInfo| s@,
                    ).push(c@));
                    assert(kept.push(member).map_values(|s: StickerInfo| s@) =~= kept.map_values(
                        |s: StickerInfo| s@,
                    ).push(member@));
                }
            } else {
                assert(member.collection@ != wanted);
            }
            i = i + 1;
        }
        assert(all.subrange(0, all.len() as int) =~= all);
        out
    }
}

/// Whether sticker `i` was changed: its file was read and its checksum differs.
pub open spec fn is_modified(
    stickers: Seq<StickerInfo>,
    digests: Seq<Option<Vec<u8>>>,
    i: int,
) -> bool {
    digests[i] matches Some(d) && d@ != stickers[i].checksum_sha256@
}

/// The changed stickers among the first `n`, in order.
pub open spec fn modified_prefix(
    stickers: Seq<StickerInfo>,
    digests: Seq<Option<Vec<u8>>>,
    n: nat,
) -> Seq<(Seq<char>, i32, Seq<char>, Seq<u8>)>
    decreases n,
{
    if n == 0 {
        Seq::empty()
    } else {
        let prev = modified_prefix(stickers, digests, (n - 1) as nat);
        if is_modified(stickers, digests, n - 1) {
            prev.push(stickers[n - 1]@)
        } else {
            prev
        }
    }
}

/// The collections with a changed sticker among the first `n`, each once, in the order of
/// their first changed sticker.
pub open spec fn modified_collections_prefix(
    stickers: Seq<StickerInfo>,
    digests: Seq<Option<Vec<u8>>>,
    n: nat,
) -> Seq<Seq<char>>
    decreases n,
{
    if n == 0 {
        Seq::empty()
    } else {
        let prev = modified_collections_prefix(stickers, digests, (n - 1) as nat);
        let c = stickers[n - 1].collection@;
        if is_modified(stickers, digests, n - 1) && !prev.contains(c) {
            prev.push(c)
        } else {
            prev
        }
    }
}

impl Workspace {
    /// The record of a sticker extracted as PNG data `data` into the file `file_name`, whose
    /// stem names its collection and number.
    pub fn parse_sticker_info(data: &[u8], stem: &str, file_name: &str) -> (r: Result<
        StickerInfo,
        StickerNameError,
    >)
        ensures
            match sticker_name_of(stem@) {
                Ok((collection, id)) => r matches Ok(info) && info@ == (
                    collection,
                    id,
                    file_name@,
                    sha256_of(data@),
                ),
                Err(e) => r matches Err(f) && f == e,
            },
    {
        let checksum = HashString::digest_of(data);
        match parse_sticker_name(stem) {
            Ok((collection, id)) => Ok(
                StickerInfo { collection, id, name: file_name.to_owned(), checksum_sha256: checksum },
            ),
            Err(e) => Err(e),
        }
    }

    /// The stickers whose files changed since extraction, in order. `digests[i]` is the
    /// checksum of the file of sticker `i` now, or `None` when there is no such file.
    pub fn get_modified_stickers(&self, digests: &[Option<Vec<u8>>]) -> (r: Vec<StickerInfo>)
        requires
            digests@.len() == self.spec_info().spec_stickers().len(),
        ensures
            r@.map_values(|s: StickerInfo| s@) == modified_prefix(
                self.spec_info().spec_stickers(),
                digests@,
                digests@.len(),
            ),
    {
        let stickers = self.info.stickers();
        let ghost all = self.info.spec_stickers();
        let mut out: Vec<StickerInfo> = Vec::new();
        let mut i: usize = 0;
        while i < stickers.len()
            invariant
                stickers@ == all,
                digests@.len() == all.len(),
                i <= all.len(),
                out@.map_values(|s: StickerInfo| s@) == modified_prefix(all, digests@, i as nat),
            decreases all.len() - i,
        {
            match &digests[i] {
                Some(d) => {
                    if !stickers[i].checksum_sha256.matches_digest(d.as_slice()) {
                        let c = stickers[i].copied();
                        let ghost old_out = out@;
                        out.push(c);
                        assert(out@.map_values(|s: StickerInfo| s@) =~= old_out.map_values(
                            |s: StickerInfo| s@,
                        ).push(c@));
                    }
                },
                None => {},
            }
            i = i + 1;
        }
        out
    }

    /// Each collection with a changed sticker, with copies of all its stickers; in the order
    /// of the first changed sticker of each. `digests` is as for `get_modified_stickers`.
    pub fn get_modified_collections(&self, digests: &[Option<Vec<u8>>]) -> (r: Vec<
        (String, Vec<StickerInfo>),
    >)
        requires
            digests@.len() == self.spec_info().spec_stickers().len(),
        ensures
            r@.map_values(|p: (String, Vec<StickerInfo>)| p.0@) == modified_collections_prefix(
                self.spec_info().spec_stickers(),
                digests@,
                digests@.len(),
            ),
            forall|k: int|
                0 <= k < r@.len() ==> (#[trigger] r@[k]).1@.map_values(|s: StickerInfo| s@)
                    == in_collection(self.spec_info().spec_stickers(), r@[k].0@),
    {
        let stickers = self.info.stickers();
        let ghost all = self.info.spec_stickers();
        let mut out: Vec<(String, Vec<StickerInfo>)> = Vec::new();
        let mut i: usize = 0;
        while i < stickers.len()
            invariant
                stickers@ == all,
                all == self.spec_info().spec_stickers(),
                digests@.len() == all.len(),
                i <= all.len(),
                out@.map_values(|p: (String, Vec<StickerInfo>)| p.0@) == modified_collections_prefix(
                    all,
                    digests@,
                    i as nat,
                ),
                forall|k: int|
                    0 <= k < out@.len() ==> (#[trigger] out@[k]).1@.map_values(|s: StickerInfo| s@)
                        == in_collection(all, out@[k].0@),
            decreases all.len() - i,
        {
            let ghost names = out@.map_values(|p: (String, Vec<StickerInfo>)| p.0@);
            let name = &stickers[i].collection;
            let mut seen = false;
            let mut j: usize = 0;
            while j < out.len()
                invariant
                    j <= out@.len(),
                    names == out@.map_values(|p: (String, Vec<StickerInfo>)| p.0@),
                    seen == exists|k: int| 0 <= k < j && names[k] == name@,
                decreases out@.len() - j,
            {
                assert(names[j as int] == out@[j as int].0@);
                if out[j].0 == *name {
                    seen = true;
                }
                j = j + 1;
            }
            assert(seen == names.contains(name@));
            if !seen {
                match &digests[i] {
                    Some(d) => {
                        if !stickers[i].checksum_sha256.matches_digest(d.as_slice()) {
                            let members = self.get_collection(name.as_str());
                            let ghost old_out = out@;
                            out.push((name.clone(), members));
                            assert(out@.map_values(|p: (String, Vec<StickerInfo>)| p.0@)
                                =~= names.push(name@));
                            assert forall|k: int| 0 <= k < out@.len() implies (
                            #[trigger] out@[k]).1@.map_values(|s: StickerInfo| s@) == in_collection(
                                all,
                                out@[k].0@,
                            ) by {
                                if k < old_out.len() {
                                    assert(out@[k] == old_out[k]);
                                }
                            }
                        }
                    },
                    None => {},
                }
            }
            i = i + 1;
        }
        out
    }
}

} // verus!
