//! Task hashes: a SHA-1 digest, in lowercase hexadecimal, of the database
//! text, the task's binary encoding and the time the hash was made.
use vstd::prelude::*;
use vstd::arithmetic::power::pow;
use vstd::string::StrSliceExecFns;
use vstd::utf8::encode_utf8;

use sha1::Digest;

use crate::task::{Task, TaskSize, TaskStatus, TaskTriage, TaskView};
use crate::text::{hex_lower, hex_lower_shape, hex_lower_spec, is_lower_hex};

verus! {

/// The SHA-1 digest of `data`.
pub uninterp spec fn sha1_digest_spec(data: Seq<u8>) -> Seq<u8>;

/// `x` as `n` bytes, least significant first.
pub open spec fn le_bytes(x: int, n: nat) -> Seq<u8> {
    Seq::new(n, |i: int| ((x / pow(256, i as nat)) % 256) as u8)
}

/// bincode's variable-length encoding of an unsigned number: one byte up to
/// 250, else a marker byte (251, 252, 253) and the number in 2, 4 or 8
/// little-endian bytes.
pub open spec fn varint(x: nat) -> Seq<u8> {
    if x <= 250 {
        seq![x as u8]
    } else if x <= 0xffff {
        seq![251u8] + le_bytes(x as int, 2)
    } else if x <= 0xffff_ffff {
        seq![252u8] + le_bytes(x as int, 4)
    } else {
        seq![253u8] + le_bytes(x as int, 8)
    }
}

/// The zig-zag number of a signed integer: 0, -1, 1, -2, ... become 0, 1, 2, 3, ...
pub open spec fn zigzag(v: i32) -> nat {
    if v >= 0 {
        (2 * v) as nat
    } else {
        (-2 * v - 1) as nat
    }
}

/// bincode's encoding of a string: its UTF-8 length, then its UTF-8 bytes.
pub open spec fn bincode_str(s: Seq<char>) -> Seq<u8> {
    varint(encode_utf8(s).len()) + encode_utf8(s)
}

/// bincode's encoding of an optional string: a 0 byte, or a 1 byte and the
/// string.
pub open spec fn bincode_opt_str(s: Option<Seq<char>>) -> Seq<u8> {
    match s {
        None => seq![0u8],
        Some(t) => seq![1u8] + bincode_str(t),
    }
}

/// The bytes that `bincode_next::serde::encode_to_vec` with the standard
/// configuration (little-endian, variable-length integers) makes of a task's
/// fields, in order: the name, the triage, status and size numbers, and the
/// optional hash. Tuples and structs get no header of their own.
pub open spec fn bincode_task_fields(
    name: Seq<char>,
    triage: i32,
    status: i32,
    size: i32,
    hash: Option<Seq<char>>,
) -> Seq<u8> {
    bincode_str(name) + varint(zigzag(triage)) + varint(zigzag(status)) + varint(zigzag(size))
        + bincode_opt_str(hash)
}

/// Calls `sha1::Sha1::digest` (through `sha1::Digest`) on `data` and copies
/// the digest out. Claimed: the result is the SHA-1 digest of `data` and, as
/// the crate's output size for SHA-1 fixes, 20 bytes long.
#[verifier::external_body]
fn sha1_digest(data: &[u8]) -> (d: Vec<u8>)
    ensures
        d@ == sha1_digest_spec(data@),
        d@.len() == 20,
{
    sha1::Sha1::digest(data).to_vec()
}

/// Calls `bincode_next::serde::encode_to_vec` with
/// `bincode_next::config::standard()` on the tuple of a task's fields. A
/// struct's fields and a tuple of them go through serde in the same way,
/// and the levels go as their `i32` numbers, so these are the bytes of the
/// task itself. Claimed: the call succeeds, and the bytes are bincode's
/// encoding of exactly these arguments, as `bincode_task_fields` states it
/// (string lengths and integers as in the crate's `varint` module, with
/// `i32` zig-zagged, an `Option` as a tag byte). Success is what the crate's source
/// shows for these types: the serde paths taken (tuple, `str`, `i32`,
/// `Option`) raise no error of their own, and every byte goes to the
/// crate's `VecWriter`, whose writes always return `Ok`.
#[verifier::external_body]
fn encode_task_fields(
    name: &str,
    triage: i32,
    status: i32,
    size: i32,
    hash: &Option<String>,
) -> (r: Option<Vec<u8>>)
    ensures
        r is Some,
        r matches Some(b) ==> b@ == bincode_task_fields(name@, triage, status, size, hash.deep_view()),
{
    bincode_next::serde::encode_to_vec(
        (name, triage, status, size, hash),
        bincode_next::config::standard(),
    ).ok()
}

/// The binary encoding of a task.
pub open spec fn task_encoding(t: TaskView) -> Seq<u8> {
    bincode_task_fields(t.name, t.triage.repr_spec(), t.status.repr_spec(), t.size.repr_spec(), t.hash)
}

/// `x` as 16 bytes, most significant first.
pub open spec fn be_bytes_spec(x: u128) -> Seq<u8> {
    Seq::new(16, |i: int| ((x >> ((120 - 8 * i) as u32)) & 0xff) as u8)
}

/// What is hashed: the database text, a zero byte, the task's encoding,
/// a zero byte, and the time in microseconds as 16 big-endian bytes.
pub open spec fn hash_input_spec(db: Seq<char>, encoded: Seq<u8>, micros: u128) -> Seq<u8> {
    encode_utf8(db) + seq![0u8] + encoded + seq![0u8] + be_bytes_spec(micros)
}

/// The full hash made from the database text, an encoded task and a time.
pub open spec fn hash_of_encoding(db: Seq<char>, encoded: Seq<u8>, micros: u128) -> Seq<char> {
    hex_lower_spec(sha1_digest_spec(hash_input_spec(db, encoded, micros)))
}

/// The full (40 character) hash of a task added to a database at a time.
pub open spec fn full_hash_spec(db: Seq<char>, t: TaskView, micros: u128) -> Seq<char> {
    hash_of_encoding(db, task_encoding(t), micros)
}

/// The short hash: the first six characters of the full hash.
pub open spec fn short_hash_spec(db: Seq<char>, t: TaskView, micros: u128) -> Seq<char> {
    full_hash_spec(db, t, micros).take(6)
}

/// `x` as 16 bytes, most significant first.
pub fn be_bytes(x: u128) -> (r: Vec<u8>)
    ensures
        r@ == be_bytes_spec(x),
{
    let mut r: Vec<u8> = Vec::new();
    let mut i: u32 = 0;
    while i < 16
        invariant
            i <= 16,
            r@ =~= be_bytes_spec(x).take(i as int),
        decreases 16 - i,
    {
        let shift: u32 = 120 - 8 * i;
        let b: u8 = ((x >> shift) & 0xff) as u8;
        r.push(b);
        i = i + 1;
    }
    r
}

/// Appends the bytes of `s` to `v`.
fn push_all(v: &mut Vec<u8>, s: &[u8])
    ensures
        final(v)@ == old(v)@ + s@,
{
    let n = s.len();
    let mut i: usize = 0;
    while i < n
        invariant
            n == s@.len(),
            i <= n,
            v@ =~= old(v)@ + s@.take(i as int),
        decreases n - i,
    {
        v.push(s[i]);
        i = i + 1;
    }
}

/// The bytes that are hashed for a task: the database text, a zero byte,
/// the encoded task, a zero byte and the time in microseconds, big-endian.
pub fn hash_input(db_str: &str, encoded: &[u8], micros: u128) -> (r: Vec<u8>)
    ensures
        r@ == hash_input_spec(db_str@, encoded@, micros),
{
    let mut r: Vec<u8> = Vec::new();
    push_all(&mut r, db_str.as_bytes());
    r.push(0u8);
    push_all(&mut r, encoded);
    r.push(0u8);
    let t = be_bytes(micros);
    push_all(&mut r, t.as_slice());
    r
}

/// The full hash for an already encoded task.
pub fn hash_with_encoding(db_str: &str, encoded: &[u8], micros: u128) -> (h: String)
    ensures
        h@ == hash_of_encoding(db_str@, encoded@, micros),
        h@.len() == 40,
        is_lower_hex(h@),
{
    let input = hash_input(db_str, encoded, micros);
    let digest = sha1_digest(input.as_slice());
    proof {
        hex_lower_shape(digest@);
    }
    hex_lower(digest.as_slice())
}

/// The full hash of `task` for a database whose text is `db_str`, at time
/// `micros`.
pub fn full_hash(db_str: &str, task: &Task, micros: u128) -> (h: String)
    ensures
        h@ == full_hash_spec(db_str@, task@, micros),
        h@.len() == 40,
        is_lower_hex(h@),
{
    let encoded = encode_task_fields(
        task.name.as_str(),
        task.triage.repr(),
        task.status.repr(),
        task.size.repr(),
        &task.hash,
    ).unwrap();
    hash_with_encoding(db_str, encoded.as_slice(), micros)
}

/// Gives `task` its full hash; nothing else about the task changes.
pub fn add_hash_to_task(db_str: &str, task: &mut Task, micros: u128)
    ensures
        final(task)@ == old(task)@.with_hash(Some(full_hash_spec(db_str@, old(task)@, micros))),
        full_hash_spec(db_str@, old(task)@, micros).len() == 40,
        is_lower_hex(full_hash_spec(db_str@, old(task)@, micros)),
{
    let h = full_hash(db_str, task, micros);
    task.hash = Some(h);
}

/// Gives `task` its short hash, the first six characters of the full hash;
/// nothing else about the task changes.
pub fn generate_short_hash(db_str: &str, task: &mut Task, micros: u128)
    ensures
        final(task)@ == old(task)@.with_hash(Some(short_hash_spec(db_str@, old(task)@, micros))),
        short_hash_spec(db_str@, old(task)@, micros).len() == 6,
        is_lower_hex(short_hash_spec(db_str@, old(task)@, micros)),
{
    let h = full_hash(db_str, task, micros);
    let short: String = h.as_str().substring_char(0, 6).to_owned();
    assert(short@ =~= h@.take(6));
    task.hash = Some(short);
}

} // verus!

verus! {

/// A task's short hash is the first six characters of its full hash: six
/// lowercase hexadecimal digits when the full hash is 40 of them.
pub proof fn short_hash_is_prefix_of_full(db: Seq<char>, t: TaskView, micros: u128)
    requires
        full_hash_spec(db, t, micros).len() == 40,
        is_lower_hex(full_hash_spec(db, t, micros)),
    ensures
        short_hash_spec(db, t, micros) == full_hash_spec(db, t, micros).subrange(0, 6),
        short_hash_spec(db, t, micros).len() == 6,
        is_lower_hex(short_hash_spec(db, t, micros)),
{
    let full = full_hash_spec(db, t, micros);
    assert forall|i: int| 0 <= i < 6 implies #[trigger] short_hash_spec(db, t, micros)[i] == full[i] by {}
}

} // verus!

verus! {

/// A level number (0 to 7) is encoded as the single byte twice its value.
proof fn small_level_encoding(x: i32)
    requires
        0 <= x <= 7,
    ensures
        varint(zigzag(x)) == seq![(2 * x) as u8],
{
}

/// Two tasks with the same name and hash whose encodings are equal have the
/// same triage, status and size: the encoding that is hashed tells apart
/// tasks that differ in any level.
pub proof fn encoding_separates_levels(t1: TaskView, t2: TaskView)
    requires
        t1.name == t2.name,
        t1.hash == t2.hash,
    ensures
        task_encoding(t1) == task_encoding(t2) ==> t1 == t2,
{
    if task_encoding(t1) == task_encoding(t2) {
        let p = bincode_str(t1.name);
        let n = p.len() as int;
        let (a1, b1, c1) = (t1.triage.repr_spec(), t1.status.repr_spec(), t1.size.repr_spec());
        let (a2, b2, c2) = (t2.triage.repr_spec(), t2.status.repr_spec(), t2.size.repr_spec());
        small_level_encoding(a1);
        small_level_encoding(b1);
        small_level_encoding(c1);
        small_level_encoding(a2);
        small_level_encoding(b2);
        small_level_encoding(c2);
        let e1 = task_encoding(t1);
        let e2 = task_encoding(t2);
        assert(e1[n] == (2 * a1) as u8);
        assert(e2[n] == (2 * a2) as u8);
        assert(e1[n + 1] == (2 * b1) as u8);
        assert(e2[n + 1] == (2 * b2) as u8);
        assert(e1[n + 2] == (2 * c1) as u8);
        assert(e2[n + 2] == (2 * c2) as u8);
        TaskTriage::codes_distinct(t1.triage, t2.triage);
        TaskStatus::codes_distinct(t1.status, t2.status);
        TaskSize::codes_distinct(t1.size, t2.size);
    }
}

/// The bytes that are hashed determine the encoded task: for the same
/// database text and time, different encodings give different inputs.
pub proof fn hash_input_determines_encoding(db: Seq<char>, e1: Seq<u8>, e2: Seq<u8>, micros: u128)
    ensures
        hash_input_spec(db, e1, micros) == hash_input_spec(db, e2, micros) ==> e1 == e2,
{
    let x = encode_utf8(db) + seq![0u8];
    let tail = seq![0u8] + be_bytes_spec(micros);
    assert(hash_input_spec(db, e1, micros) =~= x + e1 + tail);
    assert(hash_input_spec(db, e2, micros) =~= x + e2 + tail);
    if hash_input_spec(db, e1, micros) == hash_input_spec(db, e2, micros) {
        let a = x + e1 + tail;
        let b = x + e2 + tail;
        assert(e1.len() == e2.len());
        assert forall|k: int| 0 <= k < e1.len() implies e1[k] == e2[k] by {
            assert(a[x.len() + k] == e1[k]);
            assert(b[x.len() + k] == e2[k]);
        }
        assert(e1 =~= e2);
    }
}

/// What is hashed for a task depends on its levels: two tasks with the same
/// name and hash, added to the same database at the same time, are hashed
/// from the same bytes only when their triage, status and size agree.
pub proof fn hash_input_separates_levels(db: Seq<char>, t1: TaskView, t2: TaskView, micros: u128)
    requires
        t1.name == t2.name,
        t1.hash == t2.hash,
    ensures
        hash_input_spec(db, task_encoding(t1), micros) == hash_input_spec(db, task_encoding(t2), micros)
            ==> t1 == t2,
{
    hash_input_determines_encoding(db, task_encoding(t1), task_encoding(t2), micros);
    encoding_separates_levels(t1, t2);
}

} // verus!
