//! Lanes written out as text: a bracketed, comma-separated list of
//! zero-padded lower-case hexadecimal numbers, such as
//! `[00000001, 0000abcd]`.
use vstd::prelude::*;
use vstd::string::StringExecFns;

verus! {

/// The lower-case hexadecimal digit for `d < 16`.
pub open spec fn hex_char(d: u64) -> char {
    match d {
        0 => '0',
        1 => '1',
        2 => '2',
        3 => '3',
        4 => '4',
        5 => '5',
        6 => '6',
        7 => '7',
        8 => '8',
        9 => '9',
        10 => 'a',
        11 => 'b',
        12 => 'c',
        13 => 'd',
        14 => 'e',
        _ => 'f',
    }
}

/// `v` in hexadecimal with exactly `width` digits, most significant first
/// (digit `i` is bits `4 * (width - 1 - i) ..` of `v`, four at a time).
pub open spec fn hex_text(v: u64, width: nat) -> Seq<char> {
    Seq::new(width, |i: int| hex_char((v >> ((4 * (width - 1 - i)) as u64)) & 15u64))
}

/// The numbers `vs` in hexadecimal, `width` digits each, separated by `", "`.
pub open spec fn hex_items(vs: Seq<u64>, width: nat) -> Seq<char>
    decreases vs.len(),
{
    if vs.len() == 0 {
        seq![]
    } else if vs.len() == 1 {
        hex_text(vs[0], width)
    } else {
        hex_items(vs.drop_last(), width) + seq![',', ' '] + hex_text(vs.last(), width)
    }
}

/// The numbers `vs` as a bracketed list: `[` , the items, `]`.
pub open spec fn hex_list(vs: Seq<u64>, width: nat) -> Seq<char> {
    seq!['['] + hex_items(vs, width) + seq![']']
}

proof fn lemma_low_nibble(x: u64)
    by (bit_vector)
    ensures
        x & 15u64 < 16,
{
}

fn hex_digit(d: u64) -> (s: &'static str)
    requires
        d < 16,
    ensures
        s@ == seq![hex_char(d)],
{
    match d {
        0 => {
            proof {
                reveal_strlit("0");
            }
            "0"
        },
        1 => {
            proof {
                reveal_strlit("1");
            }
            "1"
        },
        2 => {
            proof {
                reveal_strlit("2");
            }
            "2"
        },
        3 => {
            proof {
                reveal_strlit("3");
            }
            "3"
        },
        4 => {
            proof {
                reveal_strlit("4");
            }
            "4"
        },
        5 => {
            proof {
                reveal_strlit("5");
            }
            "5"
        },
        6 => {
            proof {
                reveal_strlit("6");
            }
            "6"
        },
        7 => {
            proof {
                reveal_strlit("7");
            }
            "7"
        },
        8 => {
            proof {
                reveal_strlit("8");
            }
            "8"
        },
        9 => {
            proof {
                reveal_strlit("9");
            }
            "9"
        },
        10 => {
            proof {
                reveal_strlit("a");
            }
            "a"
        },
        11 => {
            proof {
                reveal_strlit("b");
            }
            "b"
        },
        12 => {
            proof {
                reveal_strlit("c");
            }
            "c"
        },
        13 => {
            proof {
                reveal_strlit("d");
            }
            "d"
        },
        14 => {
            proof {
                reveal_strlit("e");
            }
            "e"
        },
        _ => {
            proof {
                reveal_strlit("f");
            }
            "f"
        },
    }
}

/// Appends `v` in hexadecimal with exactly `width` digits.
fn append_hex(s: &mut String, v: u64, width: u64)
    requires
        width <= 16,
    ensures
        final(s)@ == old(s)@ + hex_text(v, width as nat),
{
    let ghost start = s@;
    let mut i: u64 = 0;
    while i < width
        invariant
            i <= width,
            width <= 16,
            s@ == start + hex_text(v, width as nat).take(i as int),
        decreases width - i,
    {
        let sh = 4 * (width - 1 - i);
        let d = (v >> sh) & 15;
        proof {
            lemma_low_nibble(v >> sh);
        }
        s.append(hex_digit(d));
        proof {
            assert(hex_text(v, width as nat).take(i as int + 1) =~= hex_text(v, width as nat).take(
                i as int,
            ).push(hex_char(d)));
        }
        i = i + 1;
    }
    assert(hex_text(v, width as nat).take(width as int) =~= hex_text(v, width as nat));
}

/// Writes `vs` as a bracketed list of hexadecimal numbers, `width` digits
/// each.
pub fn hex_list_string(vs: &[u64], width: u64) -> (r: String)
    requires
        width <= 16,
    ensures
        r@ == hex_list(vs@, width as nat),
{
    let mut s = String::new();
    proof {
        reveal_strlit("[");
    }
    s.append("[");
    let mut i: usize = 0;
    while i < vs.len()
        invariant
            i <= vs@.len(),
            width <= 16,
            s@ == seq!['['] + hex_items(vs@.take(i as int), width as nat),
        decreases vs@.len() - i,
    {
        let ghost before = s@;
        if i > 0 {
            proof {
                reveal_strlit(", ");
            }
            s.append(", ");
        }
        append_hex(&mut s, vs[i], width);
        proof {
            let t = vs@.take(i as int + 1);
            assert(t.drop_last() =~= vs@.take(i as int));
            assert(t.last() == vs@[i as int]);
            if i == 0 {
                assert(vs@.take(0) =~= Seq::<u64>::empty());
                assert(s@ =~= seq!['['] + hex_items(t, width as nat));
            } else {
                assert(hex_items(t, width as nat) == hex_items(vs@.take(i as int), width as nat)
                    + seq![',', ' '] + hex_text(vs@[i as int], width as nat));
                assert(s@ =~= seq!['['] + hex_items(t, width as nat));
            }
        }
        i = i + 1;
    }
    proof {
        reveal_strlit("]");
    }
    s.append("]");
    assert(vs@.take(vs@.len() as int) =~= vs@);
    s
}

} // verus!
