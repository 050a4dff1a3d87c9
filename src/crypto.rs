//! The MD5 rearrangement that one provider applies to the digests it
//! reports.

use vstd::prelude::*;

verus! {

/// Whether `c` is a hex digit, in either case.
pub open spec fn is_hex_digit(c: char) -> bool {
    ('0' <= c && c <= '9') || ('a' <= c && c <= 'f') || ('A' <= c && c <= 'F')
}

/// The value of the hex digit `c`.
pub open spec fn hex_value(c: char) -> u32 {
    if '0' <= c && c <= '9' {
        (c as u32 - '0' as u32) as u32
    } else if 'a' <= c && c <= 'f' {
        (c as u32 - 'a' as u32 + 10) as u32
    } else {
        (c as u32 - 'A' as u32 + 10) as u32
    }
}

/// The lower-case hex digit of `v`, for `v` below 16.
pub open spec fn hex_char(v: u32) -> char {
    "0123456789abcdef"@[v as int]
}

/// The position in the digest of the character that the rearrangement
/// puts at `i`: the halves of each half are swapped.
pub open spec fn source_index(i: int) -> int {
    if i < 8 {
        i + 8
    } else if i < 16 {
        i - 8
    } else if i < 24 {
        i + 8
    } else {
        i - 8
    }
}

/// The digit that the rearrangement puts at `i`: the source digit's value
/// with the low four bits of `i` flipped.
pub open spec fn scrambled_value(s: Seq<char>, i: int) -> u32 {
    hex_value(s[source_index(i)]) ^ ((i as u32) & 15u32)
}

/// The rearranged digest of the first 32 characters of `s`: each
/// scrambled digit in lower-case hex, except the tenth, which becomes the
/// letter that many places after `g`.
pub open spec fn encrypted_md5(s: Seq<char>) -> Seq<char> {
    Seq::new(
        32,
        |i: int|
            if i == 9 {
                "ghijklmnopqrstuv"@[scrambled_value(s, i) as int]
            } else {
                hex_char(scrambled_value(s, i))
            },
    )
}

/// The value of the hex digit `c`.
fn digit_value(c: char) -> (r: u32)
    requires
        is_hex_digit(c),
    ensures
        r == hex_value(c),
        r < 16,
{
    if '0' <= c && c <= '9' {
        c as u32 - '0' as u32
    } else if 'a' <= c && c <= 'f' {
        c as u32 - 'a' as u32 + 10
    } else {
        c as u32 - 'A' as u32 + 10
    }
}

/// Rearranges an MD5 digest the way the provider does: the 32 hex digits
/// are reordered, each is XOR-ed with its position, and the tenth is moved
/// into the letters from `g`.  Characters after the 32nd are ignored.
pub fn _encrypt_md5(md5str: &str) -> (r: String)
    requires
        md5str@.len() >= 32,
        forall|i: int| 0 <= i < 32 ==> is_hex_digit(#[trigger] md5str@[i]),
    ensures
        r@ == encrypted_md5(md5str@),
{
    let digits = "0123456789abcdef";
    let shifted = "ghijklmnopqrstuv";
    proof {
        reveal_strlit("0123456789abcdef");
        reveal_strlit("ghijklmnopqrstuv");
    }
    let mut out = String::new();
    let mut i: usize = 0;
    while i < 32
        invariant
            i <= 32,
            md5str@.len() >= 32,
            forall|k: int| 0 <= k < 32 ==> is_hex_digit(#[trigger] md5str@[k]),
            digits@ == "0123456789abcdef"@,
            shifted@ == "ghijklmnopqrstuv"@,
            digits@.len() == 16,
            shifted@.len() == 16,
            out@ == encrypted_md5(md5str@).take(i as int),
        decreases 32 - i,
    {
        let src: usize = if i < 8 {
            i + 8
        } else if i < 16 {
            i - 8
        } else if i < 24 {
            i + 8
        } else {
            i - 8
        };
        let v = digit_value(md5str.get_char(src));
        let mask: u32 = (i as u32) & 15;
        let x: u32 = v ^ mask;
        assert(x < 16) by (bit_vector)
            requires
                v < 16,
                x == v ^ mask,
                mask == (i as u32) & 15u32,
        ;
        let table = if i == 9 {
            shifted
        } else {
            digits
        };
        let piece = table.substring_char(x as usize, (x + 1) as usize);
        out.append(piece);
        proof {
            assert(piece@ =~= seq![table@[x as int]]);
            assert(out@ =~= encrypted_md5(md5str@).take(i + 1));
        }
        i = i + 1;
    }
    out
}

} // verus!
