use vstd::prelude::*;

use vstd::utf8::encode_utf8;

use crate::mode::RequestMode;
use crate::mode::lemma_mode_ids_distinct;
use crate::mode::spec_mode_id;

verus! {

/// The FNV-1a 64-bit offset basis.
pub const FNV_BASIS: u64 = 0xcbf2_9ce4_8422_2325;

/// The FNV-1a 64-bit prime.
pub const FNV_PRIME: u64 = 0x0000_0100_0000_01b3;

/// One FNV-1a step: fold a byte into the running hash.
pub open spec fn fnv64_step(h: u64, b: u8) -> u64 {
    vstd::wrapping::u64_specs::wrapping_mul(h ^ (b as u64), FNV_PRIME)
}

/// The FNV-1a 64-bit hash of a byte sequence.
pub open spec fn fnv64(bytes: Seq<u8>) -> u64
    decreases bytes.len(),
{
    if bytes.len() == 0 {
        FNV_BASIS
    } else {
        fnv64_step(fnv64(bytes.drop_last()), bytes.last())
    }
}

/// Hashes a byte slice with FNV-1a.
pub fn fnv64_of(bytes: &[u8]) -> (r: u64)
    ensures
        r == fnv64(bytes@),
{
    let mut h: u64 = FNV_BASIS;
    let mut i: usize = 0;
    while i < bytes.len()
        invariant
            i <= bytes@.len(),
            h == fnv64(bytes@.take(i as int)),
        decreases bytes@.len() - i,
    {
        let b = bytes[i];
        proof {
            assert(bytes@.take(i + 1).drop_last() =~= bytes@.take(i as int));
            assert(bytes@.take(i + 1).last() == bytes@[i as int]);
        }
        h = (h ^ (b as u64)).wrapping_mul(FNV_PRIME);
        i = i + 1;
    }
    proof {
        assert(bytes@.take(bytes@.len() as int) =~= bytes@);
    }
    h
}

/// The lower-case hex character for one value below 16.
pub open spec fn hex_digit(n: u64) -> char {
    if n == 0 {
        '0'
    } else if n == 1 {
        '1'
    } else if n == 2 {
        '2'
    } else if n == 3 {
        '3'
    } else if n == 4 {
        '4'
    } else if n == 5 {
        '5'
    } else if n == 6 {
        '6'
    } else if n == 7 {
        '7'
    } else if n == 8 {
        '8'
    } else if n == 9 {
        '9'
    } else if n == 10 {
        'a'
    } else if n == 11 {
        'b'
    } else if n == 12 {
        'c'
    } else if n == 13 {
        'd'
    } else if n == 14 {
        'e'
    } else {
        'f'
    }
}

/// The 16-character lower-case hex rendering of a 64-bit value, most
/// significant nibble first.
pub open spec fn hex16(h: u64) -> Seq<char> {
    Seq::new(16, |i: int| hex_digit((h >> (((15 - i) * 4) as u64)) & 0xf))
}

/// The one-character string for one hex digit.
pub fn hex_digit_str(n: u64) -> (r: &'static str)
    requires
        n < 16,
    ensures
        r@ =~= seq![hex_digit(n)],
{
    proof {
        reveal_strlit("0");
        reveal_strlit("1");
        reveal_strlit("2");
        reveal_strlit("3");
        reveal_strlit("4");
        reveal_strlit("5");
        reveal_strlit("6");
        reveal_strlit("7");
        reveal_strlit("8");
        reveal_strlit("9");
        reveal_strlit("a");
        reveal_strlit("b");
        reveal_strlit("c");
        reveal_strlit("d");
        reveal_strlit("e");
        reveal_strlit("f");
    }
    match n {
        0 => "0",
        1 => "1",
        2 => "2",
        3 => "3",
        4 => "4",
        5 => "5",
        6 => "6",
        7 => "7",
        8 => "8",
        9 => "9",
        10 => "a",
        11 => "b",
        12 => "c",
        13 => "d",
        14 => "e",
        _ => "f",
    }
}

/// Renders a 64-bit value as its fixed-width 16-character hex string.
pub fn to_hex16(h: u64) -> (r: String)
    ensures
        r@ == hex16(h),
        r@.len() == 16,
{
    let mut out = String::new();
    let mut i: usize = 0;
    while i < 16
        invariant
            i <= 16,
            out@ =~= hex16(h).take(i as int),
        decreases 16 - i,
    {
        let shift: u64 = (15 - i as u64) * 4;
        let nib: u64 = (h >> shift) & 0xf;
        proof {
            assert(nib < 16) by (bit_vector)
                requires
                    nib == (h >> shift) & 0xf,
            ;
            assert(hex16(h)[i as int] == hex_digit(nib));
        }
        out.append(hex_digit_str(nib));
        proof {
            assert(out@ =~= hex16(h).take(i + 1));
        }
        i = i + 1;
    }
    proof {
        assert(out@ =~= hex16(h));
    }
    out
}

/// The material hashed into a cache key: the four request-defining
/// fields joined in a fixed order, separated by the ASCII unit
/// separator.
pub open spec fn key_material(
    query: Seq<char>,
    os: Seq<char>,
    shell: Seq<char>,
    mode: Seq<char>,
) -> Seq<char> {
    query + "\u{1f}"@ + os + "\u{1f}"@ + shell + "\u{1f}"@ + mode
}

/// The cache key for the four request-defining fields: the fixed-width
/// hex rendering of the FNV-1a hash of the UTF-8 bytes of the joined
/// material.
pub open spec fn spec_generate_key(
    query: Seq<char>,
    os: Seq<char>,
    shell: Seq<char>,
    mode: Seq<char>,
) -> Seq<char> {
    hex16(fnv64(encode_utf8(key_material(query, os, shell, mode))))
}

/// Computes the cache key for the four request-defining fields, always
/// hashing them in the same fixed order.
pub fn fingerprint(query: &str, os: &str, shell: &str, mode: &str) -> (r: String)
    ensures
        r@ == spec_generate_key(query@, os@, shell@, mode@),
        r@.len() == 16,
{
    let mut material = query.to_owned();
    material.append("\u{1f}");
    material.append(os);
    material.append("\u{1f}");
    material.append(shell);
    material.append("\u{1f}");
    material.append(mode);
    proof {
        assert(material@ =~= key_material(query@, os@, shell@, mode@));
    }
    let h = fnv64_of(material.as_str().as_bytes());
    to_hex16(h)
}

/// Splitting at the first separator is unambiguous: when neither prefix
/// contains the separator character, equal joined sequences have equal
/// prefixes and equal remainders.
proof fn lemma_separator_split(a1: Seq<char>, b1: Seq<char>, a2: Seq<char>, b2: Seq<char>)
    requires
        !a1.contains('\u{1f}'),
        !a2.contains('\u{1f}'),
        a1 + "\u{1f}"@ + b1 == a2 + "\u{1f}"@ + b2,
    ensures
        a1 == a2,
        b1 == b2,
{
    reveal_strlit("\u{1f}");
    let t = a1 + "\u{1f}"@ + b1;
    if a1.len() < a2.len() {
        assert(t[a1.len() as int] == '\u{1f}');
        assert((a2 + "\u{1f}"@ + b2)[a1.len() as int] == a2[a1.len() as int]);
        assert(a2.contains(a2[a1.len() as int]));
        assert(false);
    } else if a2.len() < a1.len() {
        assert(t[a2.len() as int] == '\u{1f}');
        assert(t[a2.len() as int] == a1[a2.len() as int]);
        assert(a1.contains(a1[a2.len() as int]));
        assert(false);
    }
    assert forall|i: int| 0 <= i < a1.len() implies a1[i] == a2[i] by {
        assert(t[i] == a1[i]);
        assert((a2 + "\u{1f}"@ + b2)[i] == a2[i]);
    }
    assert(a1 =~= a2);
    assert(t.len() == a1.len() + "\u{1f}"@.len() + b1.len());
    assert(t.len() == a2.len() + "\u{1f}"@.len() + b2.len());
    assert(b1.len() == b2.len());
    assert forall|i: int| 0 <= i < b1.len() implies b1[i] == b2[i] by {
        assert(t[a1.len() + 1 + i] == b1[i]);
        assert((a2 + "\u{1f}"@ + b2)[a2.len() + 1 + i] == b2[i]);
    }
    assert(b1 =~= b2);
}

/// The key material separates the four components: as long as no
/// component contains the separator character, distinct component
/// 4-tuples always produce distinct material.  (The hash of the material
/// can still collide; that risk is accepted and not verified.)
pub proof fn lemma_key_material_injective(
    q1: Seq<char>,
    o1: Seq<char>,
    s1: Seq<char>,
    m1: Seq<char>,
    q2: Seq<char>,
    o2: Seq<char>,
    s2: Seq<char>,
    m2: Seq<char>,
)
    requires
        !q1.contains('\u{1f}'),
        !o1.contains('\u{1f}'),
        !s1.contains('\u{1f}'),
        !q2.contains('\u{1f}'),
        !o2.contains('\u{1f}'),
        !s2.contains('\u{1f}'),
        key_material(q1, o1, s1, m1) == key_material(q2, o2, s2, m2),
    ensures
        q1 == q2,
        o1 == o2,
        s1 == s2,
        m1 == m2,
{
    let r1 = o1 + "\u{1f}"@ + (s1 + "\u{1f}"@ + m1);
    let r2 = o2 + "\u{1f}"@ + (s2 + "\u{1f}"@ + m2);
    assert(key_material(q1, o1, s1, m1) =~= q1 + "\u{1f}"@ + r1);
    assert(key_material(q2, o2, s2, m2) =~= q2 + "\u{1f}"@ + r2);
    lemma_separator_split(q1, r1, q2, r2);
    lemma_separator_split(o1, s1 + "\u{1f}"@ + m1, o2, s2 + "\u{1f}"@ + m2);
    lemma_separator_split(s1, m1, s2, m2);
}

/// Two requests that differ only in mode never share key material: the
/// mode identifiers are distinct and contain no separator, so the mode
/// axis always separates keys at the material level.
pub proof fn lemma_mode_changes_key_material(
    q: Seq<char>,
    o: Seq<char>,
    s: Seq<char>,
    m1: RequestMode,
    m2: RequestMode,
)
    requires
        m1 != m2,
        !q.contains('\u{1f}'),
        !o.contains('\u{1f}'),
        !s.contains('\u{1f}'),
    ensures
        key_material(q, o, s, spec_mode_id(m1)) != key_material(q, o, s, spec_mode_id(m2)),
{
    lemma_mode_ids_distinct(m1, m2);
    if key_material(q, o, s, spec_mode_id(m1)) == key_material(q, o, s, spec_mode_id(m2)) {
        lemma_key_material_injective(
            q,
            o,
            s,
            spec_mode_id(m1),
            q,
            o,
            s,
            spec_mode_id(m2),
        );
    }
}

/// The key derivation is deterministic: identical components always
/// produce the identical key, across calls and across process restarts.
pub proof fn lemma_fingerprint_deterministic(
    q1: Seq<char>,
    o1: Seq<char>,
    s1: Seq<char>,
    m1: Seq<char>,
    q2: Seq<char>,
    o2: Seq<char>,
    s2: Seq<char>,
    m2: Seq<char>,
)
    requires
        q1 == q2,
        o1 == o2,
        s1 == s2,
        m1 == m2,
    ensures
        spec_generate_key(q1, o1, s1, m1) == spec_generate_key(q2, o2, s2, m2),
{
}

} // verus!
