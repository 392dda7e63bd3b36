use vstd::prelude::*;
use crate::text::{decimal, digit_char, strip_ws, remove_whitespace, decimal_string};

verus! {

/// The CRC-32 (IEEE) checksum of the UTF-8 encoding of a text.
pub uninterp spec fn crc32_of(s: Seq<char>) -> u32;

/// The SHA-256 digest of some bytes, as lowercase hexadecimal.
pub uninterp spec fn sha256_hex_of(b: Seq<u8>) -> Seq<char>;

/// Relies on crc32fast::hash: the CRC-32 of the text's UTF-8 bytes, a function
/// of the text alone.
#[verifier::external_body]
fn crc32_text(s: &str) -> (r: u32)
    ensures
        r == crc32_of(s@),
{
    crc32fast::hash(s.as_bytes())
}

/// Relies on sha256::digest over a byte slice: the hex digest of the bytes, a
/// function of the bytes alone.
#[verifier::external_body]
fn sha256_hex(bytes: &[u8]) -> (r: String)
    ensures
        r@ == sha256_hex_of(bytes@),
{
    sha256::digest(bytes)
}

/// The SHA-256 content hash of a file's bytes, as lowercase hexadecimal.
pub fn hash_file(bytes: &[u8]) -> (r: String)
    ensures
        r@ == sha256_hex_of(bytes@),
{
    sha256_hex(bytes)
}

pub open spec fn separator() -> Seq<char> {
    seq!['+', '+', '+']
}

/// Two numbers joined by the separator `+++`, each in decimal.
pub open spec fn joined(a: nat, b: nat) -> Seq<char> {
    decimal(a) + separator() + decimal(b)
}

/// The checksum of a relative path once its whitespace is removed.
pub open spec fn path_checksum(rel: Seq<char>) -> nat {
    crc32_of(strip_ws(rel)) as nat
}

/// A file's node id: the checksum of its content hash, then that of its path.
pub open spec fn file_node_id(hash: Seq<char>, rel: Seq<char>) -> Seq<char> {
    joined(crc32_of(hash) as nat, path_checksum(rel))
}

/// A folder's node id: its depth, then the checksum of its path.
pub open spec fn folder_node_id(depth: nat, rel: Seq<char>) -> Seq<char> {
    joined(depth, path_checksum(rel))
}

fn join_ids(a: u64, b: u64) -> (r: String)
    ensures
        r@ == joined(a as nat, b as nat),
{
    let mut s = decimal_string(a);
    s.append("+++");
    let t = decimal_string(b);
    s.append(t.as_str());
    proof { reveal_strlit("+++"); }
    assert(s@ =~= joined(a as nat, b as nat));
    s
}

fn checksum_path(path: &str) -> (r: u32)
    ensures
        r as nat == path_checksum(path@),
{
    let mut p = path.to_owned();
    remove_whitespace(&mut p);
    crc32_text(p.as_str())
}

/// The node id of a file with content hash `hash` at relative path `path`.
pub fn assign_node_id(hash: &str, path: &str) -> (r: String)
    ensures
        r@ == file_node_id(hash@, path@),
{
    let h = crc32_text(hash);
    let p = checksum_path(path);
    join_ids(h as u64, p as u64)
}

/// The node id of a folder at depth `depth` and relative path `path`.
pub fn assign_folder_id(depth: usize, path: &str) -> (r: String)
    ensures
        r@ == folder_node_id(depth as nat, path@),
{
    let p = checksum_path(path);
    join_ids(depth as u64, p as u64)
}

proof fn lemma_decimal_digits(n: nat)
    ensures
        decimal(n).len() >= 1,
        forall|i: int| 0 <= i < decimal(n).len() ==> decimal(n)[i] != '+',
    decreases n,
{
    if n >= 10 {
        lemma_decimal_digits(n / 10);
        assert forall|i: int| 0 <= i < decimal(n).len() implies decimal(n)[i] != '+' by {
            if i < decimal(n / 10).len() {
                assert(decimal(n)[i] == decimal(n / 10)[i]);
            }
        }
    }
}

proof fn lemma_digit_injective(x: nat, y: nat)
    requires
        x < 10,
        y < 10,
        digit_char(x) == digit_char(y),
    ensures
        x == y,
{
}

proof fn lemma_decimal_injective(a: nat, b: nat)
    requires
        decimal(a) == decimal(b),
    ensures
        a == b,
    decreases a,
{
    lemma_decimal_digits(a);
    lemma_decimal_digits(b);
    if a < 10 && b < 10 {
        assert(decimal(a) == seq![digit_char(a)]);
        assert(decimal(b) == seq![digit_char(b)]);
        assert(decimal(a)[0] == digit_char(a));
        assert(decimal(b)[0] == digit_char(b));
        lemma_digit_injective(a, b);
    } else if a < 10 {
        lemma_decimal_digits(b / 10);
    } else if b < 10 {
        lemma_decimal_digits(a / 10);
    } else {
        assert(decimal(a).drop_last() =~= decimal(a / 10));
        assert(decimal(b).drop_last() =~= decimal(b / 10));
        assert(decimal(a).last() == digit_char(a % 10));
        assert(decimal(b).last() == digit_char(b % 10));
        lemma_decimal_injective(a / 10, b / 10);
        lemma_digit_injective(a % 10, b % 10);
        assert(a == 10 * (a / 10) + a % 10) by (nonlinear_arith);
        assert(b == 10 * (b / 10) + b % 10) by (nonlinear_arith);
    }
}

proof fn lemma_joined_injective(a1: nat, b1: nat, a2: nat, b2: nat)
    requires
        joined(a1, b1) == joined(a2, b2),
    ensures
        a1 == a2,
        b1 == b2,
{
    lemma_decimal_digits(a1);
    lemma_decimal_digits(a2);
    let s = joined(a1, b1);
    let x1 = decimal(a1);
    let x2 = decimal(a2);
    if x1.len() < x2.len() {
        assert(s[x1.len() as int] == '+');
        assert(joined(a2, b2)[x1.len() as int] == x2[x1.len() as int]);
    } else if x2.len() < x1.len() {
        assert(joined(a2, b2)[x2.len() as int] == '+');
        assert(s[x2.len() as int] == x1[x2.len() as int]);
    }
    assert(x1 =~= s.subrange(0, x1.len() as int));
    assert(x2 =~= joined(a2, b2).subrange(0, x2.len() as int));
    lemma_decimal_injective(a1, a2);
    assert(decimal(b1) =~= s.subrange(x1.len() as int + 3, s.len() as int));
    assert(decimal(b2) =~= joined(a2, b2).subrange(x2.len() as int + 3, s.len() as int));
    lemma_decimal_injective(b1, b2);
}

/// Node ids are a function of content and path alone: two files with the same
/// content hash whose relative paths agree once whitespace is removed get the
/// same id, and likewise two folders at the same depth.
pub proof fn ids_are_deterministic(h1: Seq<char>, p1: Seq<char>, h2: Seq<char>, p2: Seq<char>, d1: nat, d2: nat)
    requires
        strip_ws(p1) == strip_ws(p2),
    ensures
        h1 == h2 ==> file_node_id(h1, p1) == file_node_id(h2, p2),
        d1 == d2 ==> folder_node_id(d1, p1) == folder_node_id(d2, p2),
{
}

/// Files whose content hashes or whose whitespace-free relative paths have
/// different checksums get different node ids.
pub proof fn file_ids_are_distinct(h1: Seq<char>, p1: Seq<char>, h2: Seq<char>, p2: Seq<char>)
    requires
        crc32_of(h1) != crc32_of(h2) || path_checksum(p1) != path_checksum(p2),
    ensures
        file_node_id(h1, p1) != file_node_id(h2, p2),
{
    if file_node_id(h1, p1) == file_node_id(h2, p2) {
        lemma_joined_injective(crc32_of(h1) as nat, path_checksum(p1), crc32_of(h2) as nat, path_checksum(p2));
    }
}

/// Folders at different depths, or whose whitespace-free relative paths have
/// different checksums, get different node ids.
pub proof fn folder_ids_are_distinct(d1: nat, p1: Seq<char>, d2: nat, p2: Seq<char>)
    requires
        d1 != d2 || path_checksum(p1) != path_checksum(p2),
    ensures
        folder_node_id(d1, p1) != folder_node_id(d2, p2),
{
    if folder_node_id(d1, p1) == folder_node_id(d2, p2) {
        lemma_joined_injective(d1, path_checksum(p1), d2, path_checksum(p2));
    }
}

} // verus!
