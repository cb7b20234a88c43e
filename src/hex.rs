use vstd::prelude::*;

verus! {

/// The ASCII code of the lower-case hexadecimal digit for `n` (`n < 16`).
pub open spec fn hex_ascii(n: u8) -> u8 {
    if n < 10 { (48 + n) as u8 } else { (87 + n) as u8 }
}

/// The lower-case hexadecimal digit of byte `i / 2` of `b`: high nibble first.
pub open spec fn nibble(b: Seq<u8>, i: int) -> u8 {
    if i % 2 == 0 { b[i / 2] / 16 } else { b[i / 2] % 16 }
}

/// Lower-case hexadecimal text of `b`, as ASCII bytes.
pub open spec fn hex_bytes(b: Seq<u8>) -> Seq<u8> {
    Seq::new(2 * b.len(), |i: int| hex_ascii(nibble(b, i)))
}

fn digit_ascii(n: u8) -> (r: u8)
    requires
        n < 16,
    ensures
        r == hex_ascii(n),
{
    if n < 10 { 48 + n } else { 87 + n }
}

/// Encodes `b` as lower-case hexadecimal ASCII text, two digits per byte.
pub fn encode_hex_bytes(b: &[u8]) -> (r: Vec<u8>)
    ensures
        r@ == hex_bytes(b@),
{
    let mut r: Vec<u8> = Vec::new();
    let mut i: usize = 0;
    while i < b.len()
        invariant
            i <= b.len(),
            r@ =~= hex_bytes(b@.subrange(0, i as int)),
        decreases b.len() - i,
    {
        let x = b[i];
        r.push(digit_ascii(x / 16));
        r.push(digit_ascii(x % 16));
        i += 1;
        assert(r@ =~= hex_bytes(b@.subrange(0, i as int)));
    }
    assert(b@.subrange(0, b.len() as int) =~= b@);
    r
}

/// The value of the hexadecimal digit whose ASCII code is `c`, of either case.
pub open spec fn hex_value(c: u8) -> Option<u8> {
    if 48 <= c <= 57 {
        Some((c - 48) as u8)
    } else if 97 <= c <= 102 {
        Some((c - 87) as u8)
    } else if 65 <= c <= 70 {
        Some((c - 55) as u8)
    } else {
        None
    }
}

/// `t` is hexadecimal text: an even number of digits.
pub open spec fn is_hex_text(t: Seq<u8>) -> bool {
    &&& t.len() % 2 == 0
    &&& forall|i: int| 0 <= i < t.len() ==> (#[trigger] hex_value(t[i])) is Some
}

/// The bytes that hexadecimal text `t` spells, high digit first, if it is hexadecimal text.
pub open spec fn hex_decoded(t: Seq<u8>) -> Option<Seq<u8>> {
    if is_hex_text(t) {
        Some(
            Seq::new(
                t.len() / 2,
                |i: int| (hex_value(t[2 * i])->0 * 16 + hex_value(t[2 * i + 1])->0) as u8,
            ),
        )
    } else {
        None
    }
}

fn digit_value(c: u8) -> (r: Option<u8>)
    ensures
        r == hex_value(c),
{
    if 48 <= c && c <= 57 {
        Some(c - 48)
    } else if 97 <= c && c <= 102 {
        Some(c - 87)
    } else if 65 <= c && c <= 70 {
        Some(c - 55)
    } else {
        None
    }
}

/// Decodes hexadecimal text of either case into bytes; `None` unless `t` is hexadecimal text.
pub fn decode_hex_bytes(t: &[u8]) -> (r: Option<Vec<u8>>)
    ensures
        match r {
            Some(v) => hex_decoded(t@) == Some(v@),
            None => hex_decoded(t@) is None,
        },
{
    if t.len() % 2 != 0 {
        return None;
    }
    let mut out: Vec<u8> = Vec::new();
    let mut i: usize = 0;
    while i < t.len() / 2
        invariant
            t@.len() % 2 == 0,
            i <= t@.len() / 2,
            out@.len() == i,
            forall|j: int| 0 <= j < 2 * i ==> (#[trigger] hex_value(t@[j])) is Some,
            forall|j: int|
                0 <= j < i ==> #[trigger] out@[j] == (hex_value(t@[2 * j])->0 * 16 + hex_value(
                    t@[2 * j + 1],
                )->0) as u8,
        decreases t.len() / 2 - i,
    {
        let hi = digit_value(t[2 * i]);
        let lo = digit_value(t[2 * i + 1]);
        match (hi, lo) {
            (Some(h), Some(l)) => {
                out.push(h * 16 + l);
            },
            _ => {
                assert(!is_hex_text(t@));
                return None;
            },
        }
        i += 1;
    }
    assert(is_hex_text(t@)) by {
        assert forall|j: int| 0 <= j < t@.len() implies (#[trigger] hex_value(t@[j])) is Some by {
            assert(j < 2 * i);
        }
    }
    assert(out@ =~= hex_decoded(t@)->0);
    Some(out)
}

proof fn lemma_digit_round_trip(n: u8)
    requires
        n < 16,
    ensures
        hex_value(hex_ascii(n)) == Some(n),
{
}

/// Decoding the hexadecimal text of any bytes gives those bytes back.
pub proof fn lemma_hex_round_trip(b: Seq<u8>)
    ensures
        hex_decoded(hex_bytes(b)) == Some(b),
{
    let t = hex_bytes(b);
    assert forall|i: int| 0 <= i < t.len() implies (#[trigger] hex_value(t[i])) is Some by {
        lemma_digit_round_trip(nibble(b, i));
    }
    assert forall|i: int| 0 <= i < b.len() implies (hex_value(t[2 * i])->0 * 16 + hex_value(
        t[2 * i + 1],
    )->0) as u8 == #[trigger] b[i] by {
        lemma_digit_round_trip(b[i] / 16);
        lemma_digit_round_trip(b[i] % 16);
        assert((2 * i) / 2 == i);
        assert((2 * i + 1) / 2 == i);
    }
    assert(hex_decoded(t)->0 =~= b);
}

/// Lower-case hexadecimal text of `b`, as characters.
pub open spec fn hex_text(b: Seq<u8>) -> Seq<char> {
    Seq::new(2 * b.len(), |i: int| hex_ascii(nibble(b, i)) as char)
}

fn digit_str(n: u8) -> (r: &'static str)
    requires
        n < 16,
    ensures
        r@ == seq![hex_ascii(n) as char],
{
    match n {
        0 => {
            proof {
                reveal_strlit("0");
            }
            "0"
        },
        1 => {
            proof {
                reveal_strlit("1");
            }
            "1"
        },
        2 => {
            proof {
                reveal_strlit("2");
            }
            "2"
        },
        3 => {
            proof {
                reveal_strlit("3");
            }
            "3"
        },
        4 => {
            proof {
                reveal_strlit("4");
            }
            "4"
        },
        5 => {
            proof {
                reveal_strlit("5");
            }
            "5"
        },
        6 => {
            proof {
                reveal_strlit("6");
            }
            "6"
        },
        7 => {
            proof {
                reveal_strlit("7");
            }
            "7"
        },
        8 => {
            proof {
                reveal_strlit("8");
            }
            "8"
        },
        9 => {
            proof {
                reveal_strlit("9");
            }
            "9"
        },
        10 => {
            proof {
                reveal_strlit("a");
            }
            "a"
        },
        11 => {
            proof {
                reveal_strlit("b");
            }
            "b"
        },
        12 => {
            proof {
                reveal_strlit("c");
            }
            "c"
        },
        13 => {
            proof {
                reveal_strlit("d");
            }
            "d"
        },
        14 => {
            proof {
                reveal_strlit("e");
            }
            "e"
        },
        _ => {
            proof {
                reveal_strlit("f");
            }
            "f"
        },
    }
}

/// Encodes `b` as lower-case hexadecimal text, two digits per byte.
pub fn encode_hex(b: &[u8]) -> (r: String)
    ensures
        r@ == hex_text(b@),
{
    let mut r = String::new();
    let mut i: usize = 0;
    while i < b.len()
        invariant
            i <= b.len(),
            r@ =~= hex_text(b@.subrange(0, i as int)),
        decreases b.len() - i,
    {
        let x = b[i];
        r.append(digit_str(x / 16));
        r.append(digit_str(x % 16));
        i += 1;
        assert(r@ =~= hex_text(b@.subrange(0, i as int)));
    }
    assert(b@.subrange(0, b.len() as int) =~= b@);
    r
}

} // verus!
