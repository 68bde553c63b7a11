//! Names of the factories' status sockets: the part of a factory's name
//! before its first dot, placed in the temporary directory.

use vstd::prelude::*;

verus! {

/// The part of `name` before its first `.`, or all of `name` when it has none.
pub open spec fn name_stem(name: Seq<char>) -> Seq<char>
    decreases name.len(),
{
    if name.len() == 0 {
        name
    } else if name[0] == '.' {
        Seq::empty()
    } else {
        seq![name[0]] + name_stem(name.drop_first())
    }
}

/// Past a prefix without dots, the stem continues with the stem of the rest.
pub proof fn lemma_stem_after_prefix(name: Seq<char>, i: int)
    requires
        0 <= i <= name.len(),
        forall|j: int| 0 <= j < i ==> name[j] != '.',
    ensures
        name_stem(name) == name.take(i) + name_stem(name.skip(i)),
    decreases i,
{
    if i == 0 {
        assert(name.skip(0) =~= name);
        assert(name.take(0) + name_stem(name) =~= name_stem(name));
    } else {
        let rest: Seq<char> = name.drop_first();
        assert forall|j: int| 0 <= j < i - 1 implies rest[j] != '.' by {
            assert(rest[j] == name[j + 1]);
        }
        lemma_stem_after_prefix(rest, i - 1);
        assert(rest.skip(i - 1) =~= name.skip(i));
        assert(seq![name[0]] + rest.take(i - 1) =~= name.take(i));
    }
}

/// A name without dots is its own stem.
pub proof fn lemma_stem_of_dotless(name: Seq<char>)
    requires
        !name.contains('.'),
    ensures
        name_stem(name) == name,
{
    assert forall|j: int| 0 <= j < name.len() implies name[j] != '.' by {
        if name[j] == '.' {
            assert(name.contains('.'));
        }
    }
    lemma_stem_after_prefix(name, name.len() as int);
    assert(name.take(name.len() as int) =~= name);
    assert(name.skip(name.len() as int) =~= Seq::<char>::empty());
}

/// The stem never holds a dot and is a prefix of the name.
pub proof fn lemma_stem_shape(name: Seq<char>)
    ensures
        !name_stem(name).contains('.'),
        name_stem(name).len() <= name.len(),
        name_stem(name) == name.take(name_stem(name).len() as int),
    decreases name.len(),
{
    if name.len() > 0 && name[0] != '.' {
        let rest: Seq<char> = name.drop_first();
        lemma_stem_shape(rest);
        let s: Seq<char> = name_stem(name);
        assert(s == seq![name[0]] + name_stem(rest));
        assert(s =~= name.take(s.len() as int));
        if s.contains('.') {
            let k: int = choose|k: int| 0 <= k < s.len() && s[k] == '.';
            assert(k > 0);
            assert(name_stem(rest)[k - 1] == '.');
            assert(name_stem(rest).contains('.'));
        }
    } else if name.len() > 0 {
        assert(name_stem(name) =~= name.take(0));
    }
}

/// The part of `factory_name` before its first `.`.
pub fn factory_name_stem(factory_name: &str) -> (stem: String)
    ensures
        stem@ == name_stem(factory_name@),
        stem@.len() <= factory_name@.len(),
        stem@ == factory_name@.take(stem@.len() as int),
        forall|j: int| 0 <= j < stem@.len() ==> stem@[j] != '.',
        stem@.len() == factory_name@.len() || factory_name@[stem@.len() as int] == '.',
{
    let n: usize = factory_name.unicode_len();
    let mut i: usize = 0;
    while i < n && factory_name.get_char(i) != '.'
        invariant
            i <= n,
            n == factory_name@.len(),
            forall|j: int| 0 <= j < i ==> factory_name@[j] != '.',
        decreases n - i,
    {
        i = i + 1;
    }
    proof {
        lemma_stem_after_prefix(factory_name@, i as int);
        if i == n {
            assert(factory_name@.skip(i as int) =~= Seq::<char>::empty());
        }
    }
    String::from_str(factory_name.substring_char(0, i))
}

/// The lowercase hexadecimal digit of `n`, for `0 <= n < 16`.
pub open spec fn hex_digit(n: int) -> char {
    if n < 10 {
        (n + 48) as char
    } else {
        (n + 87) as char
    }
}

/// The `k`-th of the 32 hexadecimal digits of `id`, most significant first.
pub open spec fn uuid_nibble(id: u128, k: int) -> int {
    ((id >> ((124 - 4 * k) as u128)) & 0xf) as int
}

/// Which digit stands at position `p` of the hyphenated form.
pub open spec fn uuid_digit_index(p: int) -> int {
    if p < 8 {
        p
    } else if p < 13 {
        p - 1
    } else if p < 18 {
        p - 2
    } else if p < 23 {
        p - 3
    } else {
        p - 4
    }
}

/// The hyphenated lowercase form of a UUID: its 32 hexadecimal digits, most
/// significant first, in groups of 8, 4, 4, 4 and 12 joined by `-`.
pub open spec fn uuid_text(id: u128) -> Seq<char> {
    Seq::new(
        36,
        |p: int|
            if p == 8 || p == 13 || p == 18 || p == 23 {
                '-'
            } else {
                hex_digit(uuid_nibble(id, uuid_digit_index(p)))
            },
    )
}

/// `uuid::Uuid::from_u128` then its `Display`: the hyphenated lowercase form.
#[verifier::external_body]
pub(crate) fn uuid_string(id: u128) -> (text: String)
    ensures
        text@ == uuid_text(id),
{
    uuid::Uuid::from_u128(id).to_string()
}

/// The hyphenated form of a UUID holds no dot, and holds no `/`: it is a
/// relative path of one component.
pub proof fn lemma_uuid_text_dotless(id: u128)
    ensures
        !uuid_text(id).contains('.'),
        name_stem(uuid_text(id)) == uuid_text(id),
        uuid_text(id).len() == 36,
        forall|p: int| 0 <= p < 36 ==> uuid_text(id)[p] != '/',
{
    let t: Seq<char> = uuid_text(id);
    assert forall|p: int| 0 <= p < t.len() implies t[p] != '.' && t[p] != '/' by {
        if !(p == 8 || p == 13 || p == 18 || p == 23) {
            let sh: u128 = (124 - 4 * uuid_digit_index(p)) as u128;
            assert((id >> sh) & 0xf <= 15) by (bit_vector);
            let n: int = uuid_nibble(id, uuid_digit_index(p));
            assert(0 <= n < 16);
        }
    }
    if t.contains('.') {
        let p: int = choose|p: int| 0 <= p < t.len() && t[p] == '.';
        assert(false);
    }
    lemma_stem_of_dotless(t);
}

/// The path that `std::path::Path::join` makes of `base` and `tail` on
/// Unix: an absolute `tail` (one that starts with `/`) replaces `base`;
/// otherwise `tail` is appended to `base`, after a `/` unless `base` is empty
/// or already ends in one.
pub open spec fn joined_path(base: Seq<char>, tail: Seq<char>) -> Seq<char> {
    if tail.len() > 0 && tail[0] == '/' {
        tail
    } else if base.len() == 0 || base.last() == '/' {
        base + tail
    } else {
        base + seq!['/'] + tail
    }
}

/// `std::path::Path::join` of two UTF-8 paths, read back as UTF-8 (which
/// cannot fail, as both parts are UTF-8). The contract states the joining
/// rule of Unix, where the orchestrator and the factories run.
#[verifier::external_body]
pub(crate) fn join_path(base: &str, tail: &str) -> (path: String)
    ensures
        path@ == joined_path(base@, tail@),
{
    std::path::Path::new(base).join(tail).to_str().unwrap().to_owned()
}

/// Where the status socket of the factory named `factory_name` lives: the
/// stem of the name, inside `temp_dir` (the system's temporary directory).
pub fn get_factory_ipc_socket_path(temp_dir: &str, factory_name: &str) -> (path: String)
    ensures
        path@ == joined_path(temp_dir@, name_stem(factory_name@)),
{
    let stem: String = factory_name_stem(factory_name);
    join_path(temp_dir, stem.as_str())
}

/// Where the status socket of the factory registered under `factory_id`
/// lives: its hyphenated id, inside `temp_dir`.
pub fn registration_socket_path(temp_dir: &str, factory_id: u128) -> (path: String)
    ensures
        path@ == joined_path(temp_dir@, uuid_text(factory_id)),
{
    let id_text: String = uuid_string(factory_id);
    proof {
        lemma_uuid_text_dotless(factory_id);
    }
    get_factory_ipc_socket_path(temp_dir, id_text.as_str())
}

} // verus!
