//! Byte-sequence helpers shared by the address parser and the path
//! resolver: first-occurrence search and prefix/suffix reasoning.

use vstd::prelude::*;

verus! {

/// ASCII byte values, named for the characters the library's byte strings
/// use.
pub const B_LOW_A: u8 = 97;
pub const B_LOW_B: u8 = 98;
pub const B_LOW_C: u8 = 99;
pub const B_LOW_D: u8 = 100;
pub const B_LOW_E: u8 = 101;
pub const B_LOW_F: u8 = 102;
pub const B_LOW_G: u8 = 103;
pub const B_LOW_H: u8 = 104;
pub const B_LOW_I: u8 = 105;
pub const B_LOW_J: u8 = 106;
pub const B_LOW_K: u8 = 107;
pub const B_LOW_L: u8 = 108;
pub const B_LOW_M: u8 = 109;
pub const B_LOW_N: u8 = 110;
pub const B_LOW_O: u8 = 111;
pub const B_LOW_P: u8 = 112;
pub const B_LOW_R: u8 = 114;
pub const B_LOW_S: u8 = 115;
pub const B_LOW_T: u8 = 116;
pub const B_LOW_V: u8 = 118;
pub const B_LOW_X: u8 = 120;
pub const B_LOW_Z: u8 = 122;
pub const B_UP_A: u8 = 65;
pub const B_UP_C: u8 = 67;
pub const B_UP_R: u8 = 82;
pub const B_UP_Z: u8 = 90;
pub const B_ZERO: u8 = 48;
pub const B_NINE: u8 = 57;
pub const B_SPACE: u8 = 32;
pub const B_CR: u8 = 13;
pub const B_LF: u8 = 10;
pub const B_PERCENT: u8 = 37;
pub const B_LPAREN: u8 = 40;
pub const B_RPAREN: u8 = 41;
pub const B_COMMA: u8 = 44;
pub const B_QUOTE: u8 = 39;
pub const B_DOT: u8 = 46;
pub const B_DASH: u8 = 45;
pub const B_UNDER: u8 = 95;
pub const B_TILDE: u8 = 126;
pub const B_SLASH: u8 = 47;
pub const B_COLON: u8 = 58;
pub const B_AT: u8 = 64;

/// Index of the first occurrence of `b` in `s`, or -1 if `b` does not occur.
pub open spec fn find_byte(s: Seq<u8>, b: u8) -> int
    decreases s.len(),
{
    if s.len() == 0 {
        -1
    } else if s[0] == b {
        0
    } else {
        let r = find_byte(s.skip(1), b);
        if r < 0 {
            -1
        } else {
            r + 1
        }
    }
}

/// `find_byte` returns -1 exactly when `b` is absent, and otherwise the
/// least index holding `b`.
pub proof fn lemma_find_byte_spec(s: Seq<u8>, b: u8)
    ensures
        find_byte(s, b) == -1 || (0 <= find_byte(s, b) < s.len()),
        find_byte(s, b) == -1 ==> forall|i: int| 0 <= i < s.len() ==> s[i] != b,
        find_byte(s, b) >= 0 ==> s[find_byte(s, b)] == b,
        find_byte(s, b) >= 0 ==> forall|i: int| 0 <= i < find_byte(s, b) ==> s[i] != b,
    decreases s.len(),
{
    if s.len() == 0 {
    } else if s[0] == b {
    } else {
        lemma_find_byte_spec(s.skip(1), b);
        assert forall|i: int| 1 <= i < s.len() implies s[i] == s.skip(1)[i - 1] by {}
    }
}

/// If `k` is the least index of `s` holding `b`, then `find_byte` finds `k`.
pub proof fn lemma_find_byte_at(s: Seq<u8>, b: u8, k: int)
    requires
        0 <= k < s.len(),
        s[k] == b,
        forall|i: int| 0 <= i < k ==> s[i] != b,
    ensures
        find_byte(s, b) == k,
    decreases s.len(),
{
    if k == 0 {
    } else {
        lemma_find_byte_at(s.skip(1), b, k - 1);
    }
}

/// If `b` is absent from `s`, `find_byte` reports -1.
pub proof fn lemma_find_byte_absent(s: Seq<u8>, b: u8)
    requires
        forall|i: int| 0 <= i < s.len() ==> s[i] != b,
    ensures
        find_byte(s, b) == -1,
{
    lemma_find_byte_spec(s, b);
    if find_byte(s, b) >= 0 {
        assert(s[find_byte(s, b)] == b);
    }
}

/// Finds the first occurrence of `b` in `v`, as `find_byte` describes it.
pub fn scan_byte(v: &[u8], b: u8) -> (r: Option<usize>)
    ensures
        match r {
            Some(i) => i == find_byte(v@, b),
            None => find_byte(v@, b) == -1,
        },
{
    let n = v.len();
    let mut i: usize = 0;
    while i < n
        invariant
            0 <= i <= n,
            n == v@.len(),
            forall|j: int| 0 <= j < i ==> v@[j] != b,
        decreases n - i,
    {
        if v[i] == b {
            proof {
                lemma_find_byte_at(v@, b, i as int);
            }
            return Some(i);
        }
        i = i + 1;
    }
    proof {
        lemma_find_byte_absent(v@, b);
    }
    None
}

/// True when `s` starts with `pre`.
pub open spec fn has_prefix(s: Seq<u8>, pre: Seq<u8>) -> bool {
    s.len() >= pre.len() && s.take(pre.len() as int) == pre
}

/// True when `s` ends with `suf`.
pub open spec fn has_suffix(s: Seq<u8>, suf: Seq<u8>) -> bool {
    s.len() >= suf.len() && s.skip(s.len() - suf.len()) == suf
}

/// Tests whether `v` starts with `pre`.
pub fn starts_with(v: &[u8], pre: &[u8]) -> (r: bool)
    ensures
        r == has_prefix(v@, pre@),
{
    let m = pre.len();
    if v.len() < m {
        assert(!has_prefix(v@, pre@));
        return false;
    }
    let mut i: usize = 0;
    while i < m
        invariant
            0 <= i <= m,
            m == pre@.len(),
            m <= v@.len(),
            forall|j: int| 0 <= j < i ==> v@[j] == pre@[j],
        decreases m - i,
    {
        if v[i] != pre[i] {
            assert(v@.take(m as int)[i as int] != pre@[i as int]);
            return false;
        }
        i = i + 1;
    }
    assert(v@.take(m as int) =~= pre@);
    true
}

/// Tests whether `v` ends with `suf`.
pub fn ends_with(v: &[u8], suf: &[u8]) -> (r: bool)
    ensures
        r == has_suffix(v@, suf@),
{
    let m = suf.len();
    let n = v.len();
    if n < m {
        assert(!has_suffix(v@, suf@));
        return false;
    }
    let off = n - m;
    let mut i: usize = 0;
    while i < m
        invariant
            0 <= i <= m,
            m == suf@.len(),
            off == n - m,
            n == v@.len(),
            m <= n,
            forall|j: int| 0 <= j < i ==> v@[off + j] == suf@[j],
        decreases m - i,
    {
        if v[off + i] != suf[i] {
            assert(v@.skip(off as int)[i as int] != suf@[i as int]);
            return false;
        }
        i = i + 1;
    }
    assert(v@.skip(off as int) =~= suf@);
    true
}

/// Copies the bytes of `v` between `from` (inclusive) and `to` (exclusive).
pub fn copy_range(v: &[u8], from: usize, to: usize) -> (r: Vec<u8>)
    requires
        0 <= from <= to <= v@.len(),
    ensures
        r@ == v@.subrange(from as int, to as int),
{
    let mut out: Vec<u8> = Vec::new();
    let mut i: usize = from;
    while i < to
        invariant
            from <= i <= to,
            to <= v@.len(),
            out@ =~= v@.subrange(from as int, i as int),
        decreases to - i,
    {
        out.push(v[i]);
        i = i + 1;
    }
    proof {
        assert(out@ =~= v@.subrange(from as int, to as int));
    }
    out
}

/// Appends all of `src` to `dst`.
pub fn append_bytes(dst: &mut Vec<u8>, src: &[u8])
    ensures
        final(dst)@ == old(dst)@ + src@,
{
    let n = src.len();
    let mut i: usize = 0;
    while i < n
        invariant
            0 <= i <= n,
            n == src@.len(),
            dst@ =~= old(dst)@ + src@.take(i as int),
        decreases n - i,
    {
        dst.push(src[i]);
        i = i + 1;
    }
    proof {
        assert(dst@ =~= old(dst)@ + src@);
    }
}


/// The decimal digits of `n`, most significant first.
pub open spec fn dec_digits(n: nat) -> Seq<u8>
    decreases n,
{
    if n < 10 {
        seq![(B_ZERO + n) as u8]
    } else {
        dec_digits(n / 10) + seq![(B_ZERO + n % 10) as u8]
    }
}

/// Formats `n` in decimal.
pub fn format_usize(n: usize) -> (r: Vec<u8>)
    ensures
        r@ == dec_digits(n as nat),
    decreases n,
{
    if n < 10 {
        let mut out: Vec<u8> = Vec::new();
        out.push(B_ZERO + (n as u8));
        proof {
            assert(out@ =~= dec_digits(n as nat));
        }
        out
    } else {
        let mut out = format_usize(n / 10);
        out.push(B_ZERO + ((n % 10) as u8));
        proof {
            assert(out@ =~= dec_digits(n as nat));
        }
        out
    }
}

/// `n` spaces.
pub open spec fn spaces(n: nat) -> Seq<u8>
    decreases n,
{
    if n == 0 {
        Seq::empty()
    } else {
        spaces((n - 1) as nat) + seq![B_SPACE]
    }
}

/// `s` left-padded with spaces to width `w`; a value already that wide is
/// returned unchanged.
pub open spec fn pad_left(s: Seq<u8>, w: nat) -> Seq<u8> {
    if s.len() >= w {
        s
    } else {
        spaces((w - s.len()) as nat) + s
    }
}

/// Left-pads `v` with spaces to width `w`.
pub fn pad_bytes_left(v: Vec<u8>, w: usize) -> (r: Vec<u8>)
    ensures
        r@ == pad_left(v@, w as nat),
{
    let n = v.len();
    if n >= w {
        return v;
    }
    let mut out: Vec<u8> = Vec::new();
    let mut i: usize = 0;
    while i < w - n
        invariant
            i <= w - n,
            n < w,
            n == v@.len(),
            out@ =~= spaces(i as nat),
        decreases w - n - i,
    {
        out.push(B_SPACE);
        proof {
            assert(out@ =~= spaces((i + 1) as nat));
        }
        i = i + 1;
    }
    append_bytes(&mut out, v.as_slice());
    proof {
        assert(out@ =~= pad_left(v@, w as nat));
    }
    out
}

} // verus!
