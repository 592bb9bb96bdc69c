//! Bearer tokens: 32 random bytes rendered as 64 lowercase hex characters.

use vstd::prelude::*;

verus! {

/// Number of random bytes behind one token.
pub const TOKEN_BYTES: usize = 32;

/// The lowercase hexadecimal digit for a value below 16.
pub open spec fn hex_char(n: nat) -> char
    recommends
        n < 16,
{
    if n < 10 {
        crate::text::digit_char(n)
    } else if n == 10 {
        'a'
    } else if n == 11 {
        'b'
    } else if n == 12 {
        'c'
    } else if n == 13 {
        'd'
    } else if n == 14 {
        'e'
    } else {
        'f'
    }
}

/// Whether `c` is a lowercase hexadecimal digit.
pub open spec fn is_hex_char(c: char) -> bool {
    exists|n: nat| n < 16 && c == hex_char(n)
}

/// Two hex digits per byte, high nibble first.
pub open spec fn hex_of(bytes: Seq<u8>) -> Seq<char> {
    Seq::new(
        2 * bytes.len(),
        |i: int|
            if i % 2 == 0 {
                hex_char((bytes[i / 2] / 16) as nat)
            } else {
                hex_char((bytes[i / 2] % 16) as nat)
            },
    )
}

/// The shape of every issued token: 64 lowercase hex characters.
pub open spec fn is_token(s: Seq<char>) -> bool {
    s.len() == 2 * TOKEN_BYTES && forall|i: int| 0 <= i < s.len() ==> is_hex_char(#[trigger] s[i])
}

/// Whether `s` is the rendering of some 32 bytes.
pub open spec fn is_rendered_token(s: Seq<char>) -> bool {
    exists|bytes: Seq<u8>| bytes.len() == TOKEN_BYTES && s == #[trigger] hex_of(bytes)
}

/// The rendering of `n` bytes has `2 * n` characters, all of them lowercase
/// hex digits.
pub proof fn lemma_hex_shape(bytes: Seq<u8>)
    ensures
        hex_of(bytes).len() == 2 * bytes.len(),
        forall|i: int| 0 <= i < hex_of(bytes).len() ==> is_hex_char(#[trigger] hex_of(bytes)[i]),
{
    assert forall|i: int| 0 <= i < hex_of(bytes).len() implies is_hex_char(
        #[trigger] hex_of(bytes)[i],
    ) by {
        let b = bytes[i / 2];
        let n: nat = if i % 2 == 0 {
            (b / 16) as nat
        } else {
            (b % 16) as nat
        };
        assert(n < 16);
        assert(hex_of(bytes)[i] == hex_char(n));
    }
}

/// Distinct values below 16 have distinct hex digits.
pub proof fn lemma_hex_char_injective(m: nat, n: nat)
    requires
        m < 16,
        n < 16,
        hex_char(m) == hex_char(n),
    ensures
        m == n,
{
}

/// Rendering loses nothing: two byte strings with the same rendering are
/// the same, so two tokens are equal only if the random bytes behind them
/// were.
pub proof fn lemma_hex_injective(a: Seq<u8>, b: Seq<u8>)
    requires
        hex_of(a) == hex_of(b),
    ensures
        a == b,
{
    assert(hex_of(a).len() == 2 * a.len());
    assert(hex_of(b).len() == 2 * b.len());
    assert(a.len() == b.len());
    assert forall|k: int| 0 <= k < a.len() implies a[k] == b[k] by {
        let hi = 2 * k;
        let lo = 2 * k + 1;
        assert(hex_of(a)[hi] == hex_char((a[k] / 16) as nat));
        assert(hex_of(b)[hi] == hex_char((b[k] / 16) as nat));
        assert(hex_of(a)[lo] == hex_char((a[k] % 16) as nat));
        assert(hex_of(b)[lo] == hex_char((b[k] % 16) as nat));
        lemma_hex_char_injective((a[k] / 16) as nat, (b[k] / 16) as nat);
        lemma_hex_char_injective((a[k] % 16) as nat, (b[k] % 16) as nat);
    }
    assert(a =~= b);
}

/// Every rendering of 32 bytes is a well-formed token.
pub proof fn lemma_rendered_is_token(s: Seq<char>)
    requires
        is_rendered_token(s),
    ensures
        is_token(s),
{
    let bytes = choose|bytes: Seq<u8>| bytes.len() == TOKEN_BYTES && s == #[trigger] hex_of(bytes);
    lemma_hex_shape(bytes);
}

fn hex_text(n: u8) -> (r: &'static str)
    requires
        n < 16,
    ensures
        r@ == seq![hex_char(n as nat)],
{
    proof {
        reveal_strlit("0");
        reveal_strlit("1");
        reveal_strlit("2");
        reveal_strlit("3");
        reveal_strlit("4");
        reveal_strlit("5");
        reveal_strlit("6");
        reveal_strlit("7");
        reveal_strlit("8");
        reveal_strlit("9");
        reveal_strlit("a");
        reveal_strlit("b");
        reveal_strlit("c");
        reveal_strlit("d");
        reveal_strlit("e");
        reveal_strlit("f");
    }
    let r = if n == 0 {
        "0"
    } else if n == 1 {
        "1"
    } else if n == 2 {
        "2"
    } else if n == 3 {
        "3"
    } else if n == 4 {
        "4"
    } else if n == 5 {
        "5"
    } else if n == 6 {
        "6"
    } else if n == 7 {
        "7"
    } else if n == 8 {
        "8"
    } else if n == 9 {
        "9"
    } else if n == 10 {
        "a"
    } else if n == 11 {
        "b"
    } else if n == 12 {
        "c"
    } else if n == 13 {
        "d"
    } else if n == 14 {
        "e"
    } else {
        "f"
    };
    assert(r@ =~= seq![hex_char(n as nat)]);
    r
}

/// Renders bytes as lowercase hex.
pub fn token_from_bytes(bytes: &[u8]) -> (t: String)
    ensures
        t@ == hex_of(bytes@),
{
    let mut t = String::new();
    let n: usize = bytes.len();
    let mut i: usize = 0;
    assert(t@ =~= hex_of(bytes@.take(0)));
    while i < n
        invariant
            n == bytes@.len(),
            i <= n,
            t@ == hex_of(bytes@.take(i as int)),
        decreases n - i,
    {
        let b: u8 = bytes[i];
        let ghost before = t@;
        t.append(hex_text(b / 16));
        t.append(hex_text(b % 16));
        proof {
            let next = bytes@.take(i + 1);
            assert(t@ == before + seq![hex_char((b / 16) as nat)] + seq![hex_char((b % 16) as nat)]);
            assert forall|k: int| 0 <= k < t@.len() implies t@[k] == hex_of(next)[k] by {
                if k < 2 * i {
                    assert(bytes@.take(i as int)[k / 2] == next[k / 2]);
                } else {
                    assert(next[k / 2] == b);
                }
            }
            assert(t@ =~= hex_of(next));
        }
        i += 1;
    }
    assert(bytes@.take(n as int) =~= bytes@);
    t
}

/// Draws 32 bytes from `rand::thread_rng()` with `Rng::gen`. Nothing is
/// claimed of their values: the array type alone fixes how many there are.
#[verifier::external_body]
fn random_bytes() -> (bytes: [u8; 32]) {
    let mut rng = rand::thread_rng();
    rand::Rng::gen(&mut rng)
}

/// Issues a fresh token: the hex rendering of 32 freshly drawn bytes.
pub fn generate_token() -> (t: String)
    ensures
        is_rendered_token(t@),
        is_token(t@),
{
    let bytes = random_bytes();
    let drawn: &[u8] = bytes.as_slice();
    let t = token_from_bytes(drawn);
    proof {
        assert(drawn@.len() == TOKEN_BYTES);
        assert(t@ == hex_of(drawn@));
        lemma_rendered_is_token(t@);
    }
    t
}

} // verus!
