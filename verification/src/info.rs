//! Masking of secrets before they are shown.

use vstd::prelude::*;
use vstd::string::*;
use vstd::utf8::*;

verus! {

/// How many leading bytes of a secret of `len` bytes are hidden: all but the
/// last four, and at least half.
pub open spec fn hidden_len(len: nat) -> nat {
    if len >= 4 && len - 4 >= len / 2 {
        (len - 4) as nat
    } else {
        len / 2
    }
}

/// `n` asterisks.
pub open spec fn stars(n: nat) -> Seq<char> {
    Seq::new(n, |i: int| '*')
}

/// The secret with its leading bytes replaced by asterisks, one for each
/// byte.
pub open spec fn masked(secret: Seq<char>) -> Seq<char> {
    let bytes = encode_utf8(secret);
    let hide = hidden_len(bytes.len());
    stars(hide) + decode_utf8(bytes.subrange(hide as int, bytes.len() as int))
}

/// At least half of a secret is hidden, rounded down, and at most four bytes
/// of it stay readable once it is eight bytes long.
pub proof fn lemma_hidden_len_bounds(len: nat)
    ensures
        len / 2 <= hidden_len(len) <= len,
        len >= 8 ==> len - hidden_len(len) == 4,
        len < 8 ==> hidden_len(len) == len / 2,
{
}

/// How many leading bytes of a secret of `len` bytes are hidden.
pub fn hidden_prefix(len: usize) -> (hide: usize)
    ensures
        hide == hidden_len(len as nat),
{
    if len >= 4 && len - 4 >= len / 2 {
        len - 4
    } else {
        len / 2
    }
}

/// Replaces the leading part of a secret by asterisks: all but its last four
/// bytes, and at least half of its bytes. The cut must not fall inside a
/// character.
pub fn hide_sensetive(s: &mut String)
    requires
        is_char_boundary(encode_utf8(old(s)@), hidden_len(encode_utf8(old(s)@).len()) as int),
    ensures
        final(s)@ == masked(old(s)@),
{
    let text: &str = s.as_str();
    let len: usize = text.as_bytes().len();
    let hide: usize = hidden_prefix(len);
    proof {
        broadcast use encode_utf8_valid_utf8;

        assert(text.spec_bytes() == encode_utf8(old(s)@));
        assert(hide == hidden_len(encode_utf8(old(s)@).len()));
    }
    let (_, tail) = text.split_at(hide);
    let mut out = String::new();
    let mut i: usize = 0;
    while i < hide
        invariant
            i <= hide,
            out@ == stars(i as nat),
        decreases hide - i,
    {
        proof {
            reveal_strlit("*");
        }
        out.append("*");
        i = i + 1;
        assert(out@ =~= stars(i as nat));
    }
    out.append(tail);
    proof {
        broadcast use encode_utf8_decode_utf8, encode_utf8_valid_utf8;

        assert(tail@ == decode_utf8(encode_utf8(tail@)));
        assert(tail.spec_bytes() == encode_utf8(old(s)@).subrange(
            hide as int,
            encode_utf8(old(s)@).len() as int,
        ));
        assert(out@ =~= masked(old(s)@));
    }
    *s = out;
}

} // verus!
